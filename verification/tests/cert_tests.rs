use attestation_service::certs::{
    get_oid_int, get_oid_octets, hw_id_oid, load_cert_chain, spl_oid, verify_cert_chain,
    TrustBundle, TrustStore,
};
use attestation_service::codec::signed_region;
use attestation_service::errors::{ProcessorFamily, Role, VerifyError};
use attestation_service::evidence::{
    AttestationReport, SignatureComponents, TcbVersions,
};
use attestation_service::kds::kds_url;
use attestation_service::snp::{FetchOutcome, SignatureStep, Snp};
use openssl::asn1::{Asn1Object, Asn1OctetString, Asn1Time};
use openssl::bn::BigNum;
use openssl::ec::{EcGroup, EcKey};
use openssl::ecdsa::EcdsaSig;
use openssl::hash::MessageDigest;
use openssl::nid::Nid;
use openssl::pkey::{PKey, Private};
use openssl::x509::{X509Builder, X509Extension, X509Name, X509};

fn ec_key() -> PKey<Private> {
    let group = EcGroup::from_curve_name(Nid::SECP384R1).unwrap();
    PKey::from_ec_key(EcKey::generate(&group).unwrap()).unwrap()
}

fn name(cn: &str) -> X509Name {
    let mut b = X509Name::builder().unwrap();
    b.append_entry_by_text("CN", cn).unwrap();
    b.build()
}

fn custom_extension(oid_text: &str, contents: &[u8]) -> X509Extension {
    let oid = Asn1Object::from_str(oid_text).unwrap();
    let value = Asn1OctetString::new_from_bytes(contents).unwrap();
    X509Extension::new_from_der(&oid, false, &value).unwrap()
}

fn build_cert(
    subject: &str,
    issuer: &str,
    key: &PKey<Private>,
    signer: &PKey<Private>,
    extensions: Vec<X509Extension>,
) -> X509 {
    let mut b = X509Builder::new().unwrap();
    b.set_version(2).unwrap();
    let serial = BigNum::from_u32(1).unwrap().to_asn1_integer().unwrap();
    b.set_serial_number(&serial).unwrap();
    b.set_subject_name(&name(subject)).unwrap();
    b.set_issuer_name(&name(issuer)).unwrap();
    b.set_pubkey(key).unwrap();
    b.set_not_before(&Asn1Time::days_from_now(0).unwrap()).unwrap();
    b.set_not_after(&Asn1Time::days_from_now(365).unwrap()).unwrap();
    for ext in extensions {
        b.append_extension(ext).unwrap();
    }
    b.sign(signer, MessageDigest::sha384()).unwrap();
    b.build()
}

struct TestChain {
    ark_key: PKey<Private>,
    ask_key: PKey<Private>,
    vcek_key: PKey<Private>,
    ark_der: Vec<u8>,
    ask_der: Vec<u8>,
}

fn test_chain() -> TestChain {
    let ark_key = ec_key();
    let ask_key = ec_key();
    let vcek_key = ec_key();
    let ark = build_cert("ARK-Test", "ARK-Test", &ark_key, &ark_key, Vec::new());
    let ask = build_cert("SEV-Test", "ARK-Test", &ask_key, &ark_key, Vec::new());
    TestChain {
        ark_der: ark.to_der().unwrap(),
        ask_der: ask.to_der().unwrap(),
        ark_key,
        ask_key,
        vcek_key,
    }
}

fn vcek_extensions(chip_id: &[u8; 64], tcb: &TcbVersions, der_wrapped_hw_id: bool) -> Vec<X509Extension> {
    let hw_contents = if der_wrapped_hw_id {
        let mut wrapped: Vec<u8> = vec![0x04, 64];
        wrapped.extend_from_slice(chip_id);
        wrapped
    } else {
        chip_id.to_vec()
    };
    vec![
        custom_extension("1.3.6.1.4.1.3704.1.4", &hw_contents),
        custom_extension("1.3.6.1.4.1.3704.1.3.1", &[0x02, 0x01, tcb.bootloader]),
        custom_extension("1.3.6.1.4.1.3704.1.3.2", &[0x02, 0x01, tcb.tee]),
        custom_extension("1.3.6.1.4.1.3704.1.3.3", &[0x02, 0x01, tcb.snp]),
        custom_extension("1.3.6.1.4.1.3704.1.3.8", &[0x02, 0x01, tcb.microcode]),
    ]
}

fn signed_report(chain: &TestChain, chip_id: [u8; 64], tcb: TcbVersions) -> AttestationReport {
    let mut report = AttestationReport {
        guest_svn: 2,
        measurement: [0x10u8; 48],
        report_data: [0x20u8; 64],
        chip_id,
        reported_tcb: tcb,
        signature: SignatureComponents {
            r: Vec::new(),
            s: Vec::new(),
        },
    };
    let data = signed_region(&report);
    let signing_key = chain.vcek_key.ec_key().unwrap();
    let sig = EcdsaSig::sign(&data, &signing_key).unwrap();
    report.signature = SignatureComponents {
        r: sig.r().to_vec(),
        s: sig.s().to_vec(),
    };
    report
}

fn test_vcek_der(chain: &TestChain, chip_id: &[u8; 64], tcb: &TcbVersions, der_wrapped: bool) -> Vec<u8> {
    build_cert(
        "SEV-VCEK",
        "SEV-Test",
        &chain.vcek_key,
        &chain.ask_key,
        vcek_extensions(chip_id, tcb, der_wrapped),
    )
    .to_der()
    .unwrap()
}

fn good_store(chain: &TestChain) -> TrustStore {
    TrustStore {
        // An unrelated chain: nothing verifies against it.
        genoa: TrustBundle {
            ask_der: vec![1, 2, 3],
            ark_der: vec![4, 5, 6],
        },
        milan: TrustBundle {
            ask_der: chain.ask_der.clone(),
            ark_der: chain.ark_der.clone(),
        },
    }
}

const TEST_TCB: TcbVersions = TcbVersions {
    bootloader: 3,
    tee: 0,
    snp: 8,
    microcode: 115,
};

#[test]
fn cert_chain_accepts_unmodified_leaf() {
    let chain = test_chain();
    let vcek = test_vcek_der(&chain, &[0x5au8; 64], &TEST_TCB, false);
    let bundle = TrustBundle {
        ask_der: chain.ask_der.clone(),
        ark_der: chain.ark_der.clone(),
    };
    assert!(verify_cert_chain(&vcek, &bundle, ProcessorFamily::Milan).is_ok());
}

#[test]
fn cert_chain_rejects_corrupted_leaf() {
    let chain = test_chain();
    let mut vcek = test_vcek_der(&chain, &[0x5au8; 64], &TEST_TCB, false);
    let bundle = TrustBundle {
        ask_der: chain.ask_der.clone(),
        ark_der: chain.ark_der.clone(),
    };
    vcek[7] ^= 1;
    assert_eq!(
        verify_cert_chain(&vcek, &bundle, ProcessorFamily::Milan),
        Err(VerifyError::CertificateChainInvalid(ProcessorFamily::Milan))
    );
}

#[test]
fn cert_chain_rejects_wrong_intermediate_order() {
    let chain = test_chain();
    let vcek = test_vcek_der(&chain, &[0x5au8; 64], &TEST_TCB, false);
    let swapped = TrustBundle {
        ask_der: chain.ark_der.clone(),
        ark_der: chain.ask_der.clone(),
    };
    assert!(verify_cert_chain(&vcek, &swapped, ProcessorFamily::Milan).is_err());
}

#[test]
fn load_cert_chain_requires_exactly_two() {
    let chain = test_chain();
    let ask_pem = X509::from_der(&chain.ask_der).unwrap().to_pem().unwrap();
    let ark_pem = X509::from_der(&chain.ark_der).unwrap().to_pem().unwrap();
    let mut both = ask_pem.clone();
    both.extend_from_slice(&ark_pem);
    let bundle = load_cert_chain(&both, ProcessorFamily::Milan).expect("two certificates must load");
    assert_eq!(bundle.ask_der, chain.ask_der);
    assert_eq!(bundle.ark_der, chain.ark_der);
    assert_eq!(
        load_cert_chain(&ask_pem, ProcessorFamily::Milan).err(),
        Some(VerifyError::CertificateChainInvalid(ProcessorFamily::Milan))
    );
    let mut three = both.clone();
    three.extend_from_slice(&ask_pem);
    assert!(load_cert_chain(&three, ProcessorFamily::Milan).is_err());
}

#[test]
fn extension_values_read_from_certificate() {
    let chain = test_chain();
    let chip = [0x5au8; 64];
    let raw = test_vcek_der(&chain, &chip, &TEST_TCB, false);
    let wrapped = test_vcek_der(&chain, &chip, &TEST_TCB, true);
    let oid = hw_id_oid();
    let from_raw = get_oid_octets(&raw, &oid, 64).expect("raw hardware id must decode");
    let from_wrapped = get_oid_octets(&wrapped, &oid, 64).expect("wrapped hardware id must decode");
    assert_eq!(from_raw, chip.to_vec());
    assert_eq!(from_raw, from_wrapped);
    assert_eq!(get_oid_int(&raw, &spl_oid(1)), Some(TEST_TCB.bootloader));
    assert_eq!(get_oid_int(&raw, &spl_oid(2)), Some(TEST_TCB.tee));
    assert_eq!(get_oid_int(&raw, &spl_oid(3)), Some(TEST_TCB.snp));
    assert_eq!(get_oid_int(&raw, &spl_oid(8)), Some(TEST_TCB.microcode));
    assert_eq!(get_oid_int(&raw, &spl_oid(9)), None);
}

#[test]
fn fetch_begins_with_first_family() {
    let chain = test_chain();
    let report = signed_report(&chain, [0x5au8; 64], TEST_TCB);
    let snp = Snp::new(good_store(&chain));
    match snp.begin_report_signature_check(&report) {
        SignatureStep::FetchCertificate { family, url } => {
            assert_eq!(family, ProcessorFamily::Genoa);
            assert_eq!(url, kds_url(ProcessorFamily::Genoa, &report));
            assert!(url.contains(&hex::encode([0x5au8; 64])));
        }
        _ => panic!("the check must begin with a fetch"),
    }
}

#[test]
fn cross_family_fallback_succeeds() {
    let chain = test_chain();
    let chip = [0x5au8; 64];
    let report = signed_report(&chain, chip, TEST_TCB);
    let vcek = test_vcek_der(&chain, &chip, &TEST_TCB, false);
    let snp = Snp::new(good_store(&chain));
    let second = match snp.verify_report_signature(
        &report,
        Role::Controller,
        ProcessorFamily::Genoa,
        &FetchOutcome::Unavailable,
    ) {
        SignatureStep::FetchCertificate { family, url } => {
            assert_eq!(family, ProcessorFamily::Milan);
            assert_eq!(url, kds_url(ProcessorFamily::Milan, &report));
            family
        }
        _ => panic!("a failed lookup must move to the next family"),
    };
    match snp.verify_report_signature(
        &report,
        Role::Controller,
        second,
        &FetchOutcome::Retrieved(vcek),
    ) {
        SignatureStep::Accepted { family } => assert_eq!(family, ProcessorFamily::Milan),
        SignatureStep::Rejected { error } => panic!("fallback must succeed, got {:?}", error),
        SignatureStep::FetchCertificate { .. } => panic!("no further family to try"),
    }
}

#[test]
fn both_families_fail_single_error() {
    let chain = test_chain();
    let report = signed_report(&chain, [0x5au8; 64], TEST_TCB);
    let snp = Snp::new(good_store(&chain));
    match snp.verify_report_signature(
        &report,
        Role::Controller,
        ProcessorFamily::Milan,
        &FetchOutcome::Unavailable,
    ) {
        SignatureStep::Rejected { error } => assert_eq!(
            error,
            VerifyError::CertificateRetrievalFailed(ProcessorFamily::Milan)
        ),
        _ => panic!("exhausting every family must reject"),
    }
}

#[test]
fn wrong_key_certificate_falls_through() {
    let chain = test_chain();
    let other_chain = test_chain();
    let chip = [0x5au8; 64];
    let report = signed_report(&chain, chip, TEST_TCB);
    let wrong_vcek = test_vcek_der(&other_chain, &chip, &TEST_TCB, false);
    let snp = Snp::new(good_store(&chain));
    match snp.verify_report_signature(
        &report,
        Role::Controller,
        ProcessorFamily::Genoa,
        &FetchOutcome::Retrieved(wrong_vcek),
    ) {
        SignatureStep::FetchCertificate { family, .. } => {
            assert_eq!(family, ProcessorFamily::Milan)
        }
        _ => panic!("a signature that does not verify must move to the next family"),
    }
}

#[test]
fn chip_id_mismatch_rejected_outright() {
    let chain = test_chain();
    let report = signed_report(&chain, [0x77u8; 64], TEST_TCB);
    let vcek = test_vcek_der(&chain, &[0x5au8; 64], &TEST_TCB, false);
    let snp = Snp::new(good_store(&chain));
    match snp.verify_report_signature(
        &report,
        Role::Controller,
        ProcessorFamily::Milan,
        &FetchOutcome::Retrieved(vcek),
    ) {
        SignatureStep::Rejected { error } => assert_eq!(
            error,
            VerifyError::CertificateChainInvalid(ProcessorFamily::Milan)
        ),
        _ => panic!("an extension mismatch must reject the report outright"),
    }
}
