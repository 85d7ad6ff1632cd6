use fspy_windows::ansi::NulTerminated;
use fspy_windows::artifact::Artifact;
use fspy_windows::payload::{ChannelConf, Payload};
use fspy_windows::spy::{InitCall, InitIn, InitReply};
use fspy_windows::{IoError, SpyImpl};

#[test]
fn artifact_is_named_by_the_digest_of_its_content() {
    let empty = Artifact::interpose_cdylib(&[]);
    assert_eq!(empty.name, "fsyp_preload");
    assert_eq!(empty.hash, "99aa06d3014798d86001c324468d497f");

    let binary: Vec<u8> = (0..=255).cycle().take(1000).collect();
    let artifact = Artifact::interpose_cdylib(&binary);
    assert_eq!(artifact.content, binary.as_slice());
    assert_eq!(artifact.hash, format!("{:x}", xxhash_rust::const_xxh3::xxh3_128(&binary)));
    assert_ne!(artifact.hash, empty.hash);
}

#[test]
fn digest_is_written_without_leading_zeros() {
    assert_eq!(Artifact::with_digest("n", &[1], 0x0A0B).hash, "a0b");
    assert_eq!(Artifact::with_digest("n", &[1], 0).hash, "0");
}

#[test]
fn terminated_bytes_end_in_zero() {
    let path = NulTerminated::new(vec![67, 58]);
    assert_eq!(path.to_bytes(), &[67, 58]);
    assert_eq!(path.to_bytes_with_nul(), &[67, 58, 0]);
    assert_eq!(path.clone(), path);
    assert_eq!(NulTerminated::new(vec![]).to_bytes_with_nul(), &[0]);
    let c_string = std::str::from_utf8(path.to_bytes_with_nul()).unwrap();
    assert_eq!(c_string.split('\0').next(), Some("C:"));
}

#[test]
fn set_up_writes_and_converts() {
    let init = SpyImpl::init_in(vec![68], &[1, 2, 3]);
    match init.call() {
        Some(InitCall::WriteArtifact { artifact, directory, suffix }) => {
            assert_eq!(artifact.content, &[1, 2, 3]);
            assert_eq!(directory, &vec![68]);
            assert_eq!(suffix, ".dll");
        }
        other => panic!("unexpected {:?}", other),
    }
    let init = init.step(InitReply::Written(vec![68, 92, 120]));
    let wide = vec![68, 92, 120];
    assert_eq!(
        init.call(),
        Some(InitCall::WideCharToMultiByte {
            code_page: 0,
            flags: 0,
            wide: &wide,
            default_char: None,
            report_default_char: false,
        })
    );
    let init = init.step(InitReply::Converted(Ok(vec![68, 92, 120])));
    assert!(init.call().is_none());
    match init {
        InitIn::Finished { outcome: Ok(spy) } => {
            assert_eq!(spy.ansi_dll_path_with_nul.to_bytes_with_nul(), &[68, 92, 120, 0]);
            assert_eq!(spy.clone(), spy);
        }
        other => panic!("unexpected {:?}", other),
    }
}

#[test]
fn set_up_reports_a_failed_conversion() {
    let init = SpyImpl::init_in(vec![], &[])
        .step(InitReply::Written(vec![1]))
        .step(InitReply::Converted(Err(0x8000_0001)));
    assert_eq!(init, InitIn::Finished { outcome: Err(IoError::Os(-2_147_483_647)) });
}

#[test]
fn set_up_ignores_a_foreign_reply() {
    let init = SpyImpl::init_in(vec![], &[]).step(InitReply::Converted(Err(1)));
    assert!(matches!(init, InitIn::Writing { .. }));
}

fn payload(conf: &[u8], path: &[u8]) -> Vec<u8> {
    let channel_conf = ChannelConf { encoded: conf.to_vec() };
    Payload { channel_conf: &channel_conf, ansi_dll_path_with_nul: path }.encode()
}

#[test]
fn payload_holds_configuration_and_path() {
    assert_eq!(payload(&[9, 9], &[67, 58]), vec![9, 9, 2, 67, 58]);
    assert_eq!(payload(&[], &[]), vec![0]);
}

#[test]
fn payload_writes_the_length_as_short_as_it_can() {
    assert_eq!(payload(&[], &[7; 250])[..2], [250, 7]);
    assert_eq!(payload(&[], &[7; 251])[..4], [251, 251, 0, 7]);
    assert_eq!(payload(&[], &[7; 0xFFFF])[..4], [251, 0xFF, 0xFF, 7]);
    assert_eq!(payload(&[], &[7; 0x1_0000])[..6], [252, 0, 0, 1, 0, 7]);
    assert_eq!(payload(&[], &[7; 0x1_0000]).len(), 5 + 0x1_0000);
}

#[test]
fn payload_is_that_of_a_struct_with_two_fields() {
    let config = bincode::config::standard();
    let fields = (0x1234u32, String::from("shm"), [1u8, 2, 3].as_slice());
    let expected = bincode::encode_to_vec(fields, config).unwrap();
    let conf = bincode::encode_to_vec((0x1234u32, String::from("shm")), config).unwrap();
    assert_eq!(payload(&conf, &[1, 2, 3]), expected);
}

#[test]
fn payload_determines_the_path() {
    let paths: [&[u8]; 4] = [&[], &[0], &[1], &[1, 1]];
    for first in paths {
        for second in paths {
            assert_eq!(payload(&[5], first) == payload(&[5], second), first == second);
        }
    }
}

#[test]
fn payload_reads_back() {
    for length in [0usize, 1, 250, 251, 0xFFFF, 0x1_0000] {
        let path = vec![7u8; length];
        let bytes = payload(&[3, 1, 4], &path);
        assert_eq!(bytes[..3], [3, 1, 4]);
        let (read, taken): (Vec<u8>, usize) =
            bincode::decode_from_slice(&bytes[3..], bincode::config::standard()).unwrap();
        assert_eq!(read, path);
        assert_eq!(taken, bytes.len() - 3);
    }
}
