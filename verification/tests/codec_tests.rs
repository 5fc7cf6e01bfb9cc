use attestation_service::cfs::{parse_cfs_response, resource_bytes_from_response, Cfs, CfsError};
use attestation_service::challenge::EmulatedConfig;
use attestation_service::codec::{decode_extension_octets, decode_small_int, signed_region};
use attestation_service::errors::ProcessorFamily;
use attestation_service::evidence::{
    AttestationReport, SignatureComponents, TcbVersions,
};
use attestation_service::kds::kds_url;
use attestation_service::local_fs::{LocalFs, LocalFsRepoDesc, DEFAULT_REPO_DIR_PATH};

fn sample_report() -> AttestationReport {
    AttestationReport {
        guest_svn: 0x04030201,
        measurement: [0x11u8; 48],
        report_data: [0x22u8; 64],
        chip_id: [0x33u8; 64],
        reported_tcb: TcbVersions {
            bootloader: 5,
            tee: 6,
            snp: 7,
            microcode: 8,
        },
        signature: SignatureComponents {
            r: Vec::new(),
            s: Vec::new(),
        },
    }
}

#[test]
fn signed_region_layout() {
    let r = sample_report();
    let bytes = signed_region(&r);
    let mut expected: Vec<u8> = vec![0x01, 0x02, 0x03, 0x04];
    expected.extend_from_slice(&[0x11u8; 48]);
    expected.extend_from_slice(&[0x22u8; 64]);
    expected.extend_from_slice(&[0x33u8; 64]);
    expected.extend_from_slice(&[5, 6, 7, 8]);
    assert_eq!(bytes, expected);
    assert_eq!(bytes.len(), 184);
}

#[test]
fn extension_octets_raw_and_der_agree() {
    let payload: Vec<u8> = (0u8..64).collect();
    let raw = payload.clone();
    let mut wrapped: Vec<u8> = vec![0x04, 64];
    wrapped.extend_from_slice(&payload);
    let from_raw = decode_extension_octets(&raw, 64).expect("raw encoding must decode");
    let from_der = decode_extension_octets(&wrapped, 64).expect("wrapped encoding must decode");
    assert_eq!(from_raw, payload);
    assert_eq!(from_der, payload);
}

#[test]
fn extension_octets_long_form() {
    let payload = vec![0xaau8; 200];
    let mut wrapped: Vec<u8> = vec![0x04, 0x81, 200];
    wrapped.extend_from_slice(&payload);
    let decoded = decode_extension_octets(&wrapped, 200).expect("long form must decode");
    assert_eq!(decoded, payload);
}

#[test]
fn extension_octets_wrong_width_rejected() {
    let payload: Vec<u8> = (0u8..32).collect();
    let mut wrapped: Vec<u8> = vec![0x04, 32];
    wrapped.extend_from_slice(&payload);
    assert!(decode_extension_octets(&wrapped, 64).is_none());
}

#[test]
fn small_int_decodings() {
    assert_eq!(decode_small_int(&vec![0x02, 0x01, 0x05]), Some(5));
    assert_eq!(decode_small_int(&vec![0x02, 0x02, 0x00, 0xab]), Some(0xab));
    assert_eq!(decode_small_int(&vec![0x02, 0x01, 0x00]), Some(0));
    // Bytes after the integer are ignored.
    assert_eq!(decode_small_int(&vec![0x02, 0x01, 0x05, 0xff]), Some(5));
    // Negative, non-minimal, too wide, or wrongly tagged values are rejected.
    assert_eq!(decode_small_int(&vec![0x02, 0x01, 0x80]), None);
    assert_eq!(decode_small_int(&vec![0x02, 0x02, 0x00, 0x42]), None);
    assert_eq!(decode_small_int(&vec![0x02, 0x02, 0x01, 0x00]), None);
    assert_eq!(decode_small_int(&vec![0x04, 0x01, 0x05]), None);
}

#[test]
fn kds_url_format() {
    let r = sample_report();
    let url = kds_url(ProcessorFamily::Milan, &r);
    let expected = format!(
        "https://kdsintf.amd.com/vcek/v1/Milan/{}?blSPL=05&teeSPL=06&snpSPL=07&ucodeSPL=08",
        hex::encode([0x33u8; 64])
    );
    assert_eq!(url, expected);
}

#[test]
fn kds_url_wide_version_component() {
    let mut r = sample_report();
    r.reported_tcb.microcode = 255;
    r.reported_tcb.bootloader = 0;
    let url = kds_url(ProcessorFamily::Genoa, &r);
    let expected = format!(
        "https://kdsintf.amd.com/vcek/v1/Genoa/{}?blSPL=00&teeSPL=06&snpSPL=07&ucodeSPL=255",
        hex::encode([0x33u8; 64])
    );
    assert_eq!(url, expected);
}

#[test]
fn backend_error_marker_rejected() {
    let res = "Error::kms backend unreachable".to_string();
    assert_eq!(parse_cfs_response(&res), Err(CfsError::Backend));
}

#[test]
fn backend_ok_data_extracted() {
    let res = "{\"ok\": true, \"data\": \"abc\"}".to_string();
    assert_eq!(parse_cfs_response(&res), Ok("\"abc\"".to_string()));
    assert_eq!(
        resource_bytes_from_response(&res),
        Ok(b"\"abc\"".to_vec())
    );
}

#[test]
fn backend_refusal_and_malformed() {
    let refused = "{\"ok\": false}".to_string();
    assert_eq!(parse_cfs_response(&refused), Err(CfsError::Refused));
    let not_json = "definitely not json".to_string();
    assert_eq!(parse_cfs_response(&not_json), Err(CfsError::Malformed));
    let no_ok = "{\"data\": 1}".to_string();
    assert_eq!(parse_cfs_response(&no_ok), Err(CfsError::Malformed));
    let missing_data = "{\"ok\": true}".to_string();
    assert_eq!(parse_cfs_response(&missing_data), Ok("null".to_string()));
}

#[test]
fn local_fs_uses_configured_or_default_directory() {
    let configured = LocalFsRepoDesc {
        dir_path: Some("/tmp/repo".to_string()),
    };
    let fs = LocalFs::new(&configured).expect("create local fs failed");
    assert_eq!(fs.repo_dir_path, "/tmp/repo");
    let fallback = LocalFs::new(&LocalFsRepoDesc { dir_path: None }).expect("create local fs failed");
    assert_eq!(fs.cfsi.info, "local fs");
    assert_eq!(fallback.repo_dir_path, DEFAULT_REPO_DIR_PATH);
}

#[test]
fn default_descriptions() {
    let desc = LocalFsRepoDesc::default();
    assert_eq!(desc.dir_path, Some(DEFAULT_REPO_DIR_PATH.to_string()));
    let cfg = EmulatedConfig::default();
    assert!(!cfg.emulated);
    assert_eq!(cfg.controller_id, "cc_cfs_controller_2024");
    assert_eq!(cfg.metadata_id, "cc_cfs_metadata_2024");
    assert_eq!(cfg.workload_id, "cc_cfs_workload_2024");
    let cfs = Cfs::new("backend".to_string()).expect("create cfs failed");
    assert_eq!(cfs.info, "backend");
}
