use rand::seq::SliceRandom;
use tdx_workload_attestation::error::Error;
use tdx_workload_attestation::tdx::report::{
    copy_field, BinaryBlob, ReportMacStruct, TdInfo, TdReportV15, TeeTcbInfo,
    MRTD_OFFSET, REPORT_MAC_STRUCT_LEN, TDREPORT_LEN, TDREPORT_REQ_LEN, TDREPORT_RESERVED_LEN,
    TD_INFO_LEN, TD_INFO_OFFSET, TEE_TCB_INFO_LEN,
};
use tdx_workload_attestation::tdx::{TDX_MR_REG_LEN, TDX_REPORT_DATA_LEN};

type Result<T> = std::result::Result<T, Error>;

fn counting_request() -> [u8; TDREPORT_REQ_LEN] {
    let mut raw = [0u8; TDREPORT_REQ_LEN];
    for (i, byte) in raw.iter_mut().enumerate() {
        *byte = (i % 251) as u8;
    }
    raw
}

fn json_array(bytes: &[u8]) -> String {
    let numbers: Vec<String> = bytes.iter().map(|b| format!("{}", b)).collect();
    format!("[{}]", numbers.join(","))
}

#[test]
fn test_create_request() -> Result<()> {
    let report_data: [u8; TDX_REPORT_DATA_LEN] = [1; TDX_REPORT_DATA_LEN];

    let request = TdReportV15::create_request(&report_data);

    assert!(&request[0..TDX_REPORT_DATA_LEN] == [1; TDX_REPORT_DATA_LEN]);

    Ok(())
}

#[test]
fn test_get_tdreport_from_bytes() -> Result<()> {
    let mut rng = rand::rng();
    let mut rand_bytes: Vec<u8> = (0..127).collect();
    rand_bytes.resize(TDREPORT_REQ_LEN, 0);
    rand_bytes.shuffle(&mut rng);

    let rand_req: [u8; TDREPORT_REQ_LEN] = rand_bytes.try_into().unwrap();

    // this should not throw an error
    match TdReportV15::get_tdreport_from_bytes(&rand_req) {
        Ok(_r) => Ok(()),
        Err(e) => Err(e),
    }
}

#[test]
fn test_get_tdreport_from_bytes_wrong_size() -> Result<()> {
    let mut tdreport = TdReportV15::new();

    let mut rng = rand::rng();
    let mut rand_bytes: Vec<u8> = (0..127).collect();
    rand_bytes.shuffle(&mut rng);

    match tdreport.from_bytes(&rand_bytes) {
        Err(e) => match e {
            Error::ParseError(_) => {
                println!("{}", e.message());
                Ok(())
            }
            // any other error is unexpected
            _ => Err(e),
        },
        _ => Err(Error::NotSupported(
            "Wrong buffer size should throw an error".to_string(),
        )),
    }
}

#[test]
fn lengths_add_up() {
    assert_eq!(REPORT_MAC_STRUCT_LEN, 256);
    assert_eq!(TEE_TCB_INFO_LEN, 239);
    assert_eq!(TDREPORT_RESERVED_LEN, 17);
    assert_eq!(TD_INFO_LEN, 512);
    assert_eq!(TDREPORT_LEN, 1024);
    assert_eq!(TDREPORT_REQ_LEN, 1088);
    assert_eq!(TD_INFO_OFFSET, 512);
    assert_eq!(MRTD_OFFSET, 16);
    assert_eq!(TDX_MR_REG_LEN, 48);
    assert_eq!(TDX_REPORT_DATA_LEN, 64);
}

#[test]
fn create_request_leaves_the_report_zero() {
    let mut report_data = [0u8; 64];
    for (i, byte) in report_data.iter_mut().enumerate() {
        *byte = 200 - i as u8;
    }
    let request = TdReportV15::create_request(&report_data);
    assert_eq!(&request[..64], &report_data[..]);
    assert!(request[64..].iter().all(|b| *b == 0));
    let report = TdReportV15::get_tdreport_from_bytes(&request).unwrap();
    assert_eq!(report.get_mrtd(), [0u8; 48]);
}

#[test]
fn mrtd_is_read_at_its_offset() {
    let raw = counting_request();
    let report = TdReportV15::get_tdreport_from_bytes(&raw).unwrap();
    let start = TDX_REPORT_DATA_LEN + TD_INFO_OFFSET + MRTD_OFFSET;
    assert_eq!(start, 592);
    assert_eq!(&report.get_mrtd()[..], &raw[start..start + TDX_MR_REG_LEN]);
    // one byte before or after the field does not reach it
    let mut other = raw;
    other[start - 1] ^= 0xff;
    other[start + TDX_MR_REG_LEN] ^= 0xff;
    let same = TdReportV15::get_tdreport_from_bytes(&other).unwrap();
    assert_eq!(same.get_mrtd(), report.get_mrtd());
    other[start] ^= 0xff;
    let changed = TdReportV15::get_tdreport_from_bytes(&other).unwrap();
    assert_ne!(changed.get_mrtd(), report.get_mrtd());
}

#[test]
fn new_structures_are_zero() {
    assert_eq!(TdReportV15::new().get_mrtd(), [0u8; 48]);
    let zero8 = json_array(&[0u8; 8]);
    let text = TdInfo::new().to_json().unwrap();
    assert!(text.starts_with(&format!("{{\"attributes\":{},\"xfam\":{},\"mrtd\":", zero8, zero8)));
    let texts = [
        text,
        ReportMacStruct::new().to_json().unwrap(),
        TeeTcbInfo::new().to_json().unwrap(),
    ];
    let lengths = [512usize, 256, 239];
    for (text, length) in texts.iter().zip(lengths) {
        let value: serde_json::Value = serde_json::from_str(text).unwrap();
        let mut count = 0;
        for (_, member) in value.as_object().unwrap() {
            for number in member.as_array().unwrap() {
                assert_eq!(number.as_u64(), Some(0));
                count += 1;
            }
        }
        assert_eq!(count, length);
    }
}

fn expect_length_error(res: Result<()>, name: &str) {
    match res {
        Err(Error::ParseError(text)) => assert_eq!(text, format!("{} length is wrong", name)),
        other => panic!("expected a parse error, got {:?}", other),
    }
}

#[test]
fn every_structure_refuses_other_lengths() {
    let bytes = vec![7u8; 1200];
    for len in [0usize, 1, 17, 238, 239, 240, 255, 256, 257, 511, 512, 513, 1023, 1024, 1025, 1088] {
        let slice = &bytes[..len];
        let mut mac = ReportMacStruct::new();
        if len == 256 {
            assert!(mac.from_bytes(slice).is_ok());
        } else {
            expect_length_error(mac.from_bytes(slice), "ReportMacStruct");
        }
        let mut tcb = TeeTcbInfo::new();
        if len == 239 {
            assert!(tcb.from_bytes(slice).is_ok());
        } else {
            expect_length_error(tcb.from_bytes(slice), "TeeTcbInfo");
        }
        let mut info = TdInfo::new();
        if len == 512 {
            assert!(info.from_bytes(slice).is_ok());
        } else {
            expect_length_error(info.from_bytes(slice), "TdInfo");
        }
        let mut report = TdReportV15::new();
        if len == 1024 {
            assert!(report.from_bytes(slice).is_ok());
        } else {
            expect_length_error(report.from_bytes(slice), "TdReport");
        }
    }
}

#[test]
fn a_refused_slice_leaves_the_report_as_it_was() {
    let raw = counting_request();
    let mut report = TdReportV15::get_tdreport_from_bytes(&raw).unwrap();
    let before = report.to_json().unwrap();
    assert!(report.from_bytes(&[9u8; 1023]).is_err());
    assert_eq!(report.to_json().unwrap(), before);
}

#[test]
fn copy_field_takes_the_bytes_at_the_offset() {
    let raw: Vec<u8> = (0..100u8).collect();
    let field: [u8; 4] = copy_field::<4>(&raw, 10);
    assert_eq!(field, [10, 11, 12, 13]);
    let all: [u8; 100] = copy_field::<100>(&raw, 0);
    assert_eq!(&all[..], &raw[..]);
    let none: [u8; 0] = copy_field::<0>(&raw, 100);
    assert_eq!(none.len(), 0);
}

#[test]
fn td_info_json_names_each_field_at_its_offset() {
    let mut raw = [0u8; 512];
    for (i, byte) in raw.iter_mut().enumerate() {
        *byte = (i % 256) as u8;
    }
    let mut info = TdInfo::new();
    info.from_bytes(&raw).unwrap();
    let fields: [(&str, usize, usize); 12] = [
        ("attributes", 0, 8),
        ("xfam", 8, 8),
        ("mrtd", 16, 48),
        ("mrconfigid", 64, 48),
        ("mrowner", 112, 48),
        ("mrownerconfig", 160, 48),
        ("rtmr0", 208, 48),
        ("rtmr1", 256, 48),
        ("rtmr2", 304, 48),
        ("rtmr3", 352, 48),
        ("servtd_hash", 400, 48),
        ("reserved", 448, 64),
    ];
    let members: Vec<String> = fields
        .iter()
        .map(|(name, offset, len)| format!("\"{}\":{}", name, json_array(&raw[*offset..offset + len])))
        .collect();
    assert_eq!(info.to_json().unwrap(), format!("{{{}}}", members.join(",")));
}

#[test]
fn report_json_is_the_four_members_in_order() {
    let raw = counting_request();
    let image = &raw[64..];
    let report = TdReportV15::get_tdreport_from_bytes(&raw).unwrap();
    let mut mac = ReportMacStruct::new();
    mac.from_bytes(&image[0..256]).unwrap();
    let mut tcb = TeeTcbInfo::new();
    tcb.from_bytes(&image[256..495]).unwrap();
    let mut info = TdInfo::new();
    info.from_bytes(&image[512..1024]).unwrap();
    let expected = format!(
        "{{\"report_mac_struct\":{},\"tee_tcb_info\":{},\"reserved\":{},\"td_info\":{}}}",
        mac.to_json().unwrap(),
        tcb.to_json().unwrap(),
        json_array(&image[495..512]),
        info.to_json().unwrap()
    );
    assert_eq!(report.to_json().unwrap(), expected);

    let mac_fields: [(&str, usize, usize); 8] = [
        ("report_type", 0, 8),
        ("reserved1", 8, 8),
        ("cpusvn", 16, 16),
        ("tee_tcb_info_hash", 32, 48),
        ("tee_info_hash", 80, 48),
        ("report_data", 128, 64),
        ("reserved2", 192, 32),
        ("mac", 224, 32),
    ];
    let members: Vec<String> = mac_fields
        .iter()
        .map(|(name, offset, len)| format!("\"{}\":{}", name, json_array(&image[*offset..offset + len])))
        .collect();
    assert_eq!(mac.to_json().unwrap(), format!("{{{}}}", members.join(",")));

    let tcb_fields: [(&str, usize, usize); 7] = [
        ("valid", 0, 8),
        ("tee_tcb_svn", 8, 16),
        ("mrseam", 24, 48),
        ("mrsignerseam", 72, 48),
        ("attributes", 120, 8),
        ("tee_tcb_svn2", 128, 16),
        ("reserved", 144, 95),
    ];
    let members: Vec<String> = tcb_fields
        .iter()
        .map(|(name, offset, len)| {
            format!("\"{}\":{}", name, json_array(&image[256 + offset..256 + offset + len]))
        })
        .collect();
    assert_eq!(tcb.to_json().unwrap(), format!("{{{}}}", members.join(",")));
}

#[test]
fn report_json_is_read_back_by_a_json_parser() {
    let raw = counting_request();
    let report = TdReportV15::get_tdreport_from_bytes(&raw).unwrap();
    let text = report.to_json().unwrap();
    let value: serde_json::Value = serde_json::from_str(&text).unwrap();
    let mrtd: Vec<u8> = value["td_info"]["mrtd"]
        .as_array()
        .unwrap()
        .iter()
        .map(|n| n.as_u64().unwrap() as u8)
        .collect();
    assert_eq!(&mrtd[..], &report.get_mrtd()[..]);
    assert_eq!(value["reserved"].as_array().unwrap().len(), 17);
    assert_eq!(value["tee_tcb_info"]["reserved"].as_array().unwrap().len(), 95);
    assert_eq!(value["report_mac_struct"]["report_data"].as_array().unwrap().len(), 64);
    // 255 and 100 are rendered with three digits, 10 with two
    let mut info = TdInfo::new();
    let mut bytes = [0u8; 512];
    bytes[0] = 255;
    bytes[1] = 100;
    bytes[2] = 10;
    bytes[3] = 9;
    info.from_bytes(&bytes).unwrap();
    assert!(info.to_json().unwrap().starts_with("{\"attributes\":[255,100,10,9,0,0,0,0],"));
}

#[test]
fn reports_that_differ_have_different_json() {
    let raw = counting_request();
    let text = TdReportV15::get_tdreport_from_bytes(&raw).unwrap().to_json().unwrap();
    for position in [64usize, 71, 72, 319, 320, 558, 559, 575, 576, 592, 639, 1023, 1087] {
        for change in [1u8, 0x80, 0xff] {
            let mut other = raw;
            other[position] ^= change;
            let changed = TdReportV15::get_tdreport_from_bytes(&other).unwrap().to_json().unwrap();
            assert_ne!(changed, text);
        }
    }
    // the report data that leads the request is no part of the report
    let mut other = raw;
    other[63] ^= 0xff;
    let same = TdReportV15::get_tdreport_from_bytes(&other).unwrap().to_json().unwrap();
    assert_eq!(same, text);
    // 1 and 10, 1,0 and 10: the commas keep neighbours apart
    let mut info_a = TdInfo::new();
    let mut info_b = TdInfo::new();
    let mut bytes = [0u8; 512];
    bytes[0] = 1;
    bytes[1] = 0;
    info_a.from_bytes(&bytes).unwrap();
    bytes[0] = 10;
    info_b.from_bytes(&bytes).unwrap();
    assert!(info_a.to_json().unwrap().starts_with("{\"attributes\":[1,0,0,"));
    assert!(info_b.to_json().unwrap().starts_with("{\"attributes\":[10,0,0,"));
}
