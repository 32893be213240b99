use pockystation_core::config::CoreVariables;
use pockystation_core::error::Error;
use pockystation_core::savestate::{read_frame, savestate_max_length, write_frame};
use pockystation_core::session::Context;

fn state_bytes(n: usize) -> Vec<u8> {
    (0..n).map(|i| (i * 7 + 3) as u8).collect()
}

#[test]
fn probe_adds_prefix_and_headroom() {
    assert_eq!(savestate_max_length(0), Ok(1028));
    assert_eq!(savestate_max_length(5000), Ok(6028));
    assert_eq!(savestate_max_length(usize::MAX), Err(Error::EncodeError));
}

#[test]
fn serialize_into_advertised_size_succeeds() {
    let state = state_bytes(3000);
    let ctx = Context::new(CoreVariables::defaults(), state.len()).unwrap();
    assert_eq!(ctx.serialize_size(), 4028);
    let mut buf = vec![0u8; ctx.serialize_size()];
    assert_eq!(ctx.serialize(&state, &mut buf), Ok(()));
    let grown = state_bytes(3000 + 1024);
    let mut buf = vec![0u8; ctx.serialize_size()];
    assert_eq!(ctx.serialize(&grown, &mut buf), Ok(()));
}

#[test]
fn round_trip_restores_state() {
    let state = state_bytes(777);
    let ctx = Context::new(CoreVariables::defaults(), state.len()).unwrap();
    let mut buf = vec![0xeeu8; ctx.serialize_size()];
    ctx.serialize(&state, &mut buf).unwrap();
    assert_eq!(&buf[..4], &[0x09, 0x03, 0x00, 0x00]);
    assert_eq!(ctx.unserialize(&buf), Ok(state));
    assert_eq!(buf[4 + 777], 0xee);
}

#[test]
fn too_small_buffer_is_an_encode_error() {
    let state = state_bytes(10);
    let mut buf = vec![1u8; 13];
    assert_eq!(write_frame(&state, &mut buf), Err(Error::EncodeError));
    assert_eq!(buf, vec![1u8; 13]);
    let mut buf = vec![1u8; 14];
    assert_eq!(write_frame(&state, &mut buf), Ok(()));
}

#[test]
fn truncated_buffer_is_a_decode_error() {
    assert_eq!(read_frame(&vec![]), Err(Error::DecodeError));
    assert_eq!(read_frame(&vec![5, 0, 0]), Err(Error::DecodeError));
    assert_eq!(read_frame(&vec![5, 0, 0, 0, 1, 2, 3, 4]), Err(Error::DecodeError));
    assert_eq!(read_frame(&vec![4, 0, 0, 0, 1, 2, 3, 4]), Ok(vec![1, 2, 3, 4]));
    assert_eq!(read_frame(&vec![0, 0, 0, 0]), Ok(vec![]));
}
