use rtlsdr::device::{ReadStep, MISSING_HANDLE, ZERO_REPLY, ZERO_SAMPLE_RATE};
use rtlsdr::error::{INPUT_ENCODING_FAILURE, TEXT_DECODE_FAILURE};
use rtlsdr::modes::{flag_from_native, native_flag, signed_to_native, unsigned_to_native, UNEXPECTED_MODE};
use rtlsdr::stream::{read_async_start, read_async_step, StreamAction, StreamPhase};
use rtlsdr::text::{c_text_bytes, decode_c_text, encode_c_text};
use rtlsdr::{to_success, Device, DirectSampling, Error, Tuner};

#[test]
fn it_works() {
    assert_eq!(2 + 2, 4);
}

fn buffer(text: &[u8]) -> Vec<u8> {
    let mut buf = vec![0u8; 256];
    buf[..text.len()].copy_from_slice(text);
    buf
}

#[test]
fn status_zero_is_success() {
    assert_eq!(to_success(0), Ok(()));
    assert_eq!(to_success(-5), Err(Error::new(-5)));
    assert_eq!(to_success(3).unwrap_err().code(), 3);
}

#[test]
fn open_success_owns_handle() {
    let mut dev = Device::new(0, 0x1000).unwrap();
    assert_eq!(dev.handle(), 0x1000);
    assert_eq!(dev.release(), Some(0x1000));
    assert_eq!(dev.handle(), 0);
}

#[test]
fn failed_open_owns_nothing() {
    for status in [-1, -3, -12, 1] {
        assert_eq!(Device::new(status, 0x1000).err(), Some(Error::new(status)));
    }
    assert_eq!(Device::new(0, 0).err(), Some(Error::new(MISSING_HANDLE)));
}

#[test]
fn release_happens_once() {
    for _ in 0..5 {
        let mut dev = Device::new(0, 42).unwrap();
        assert_eq!(dev.release(), Some(42));
        assert_eq!(dev.release(), None);
        assert_eq!(dev.release(), None);
    }
}

#[test]
fn xtal_freq_pair() {
    assert_eq!(Device::get_xtal_freq(0, 28_800_000, 28_800_000), Ok((28_800_000, 28_800_000)));
    assert_eq!(Device::get_xtal_freq(-2, 1, 2), Err(Error::new(-2)));
}

#[test]
fn usb_strings_are_terminated_prefixes() {
    let m = buffer(b"Realtek");
    let p = buffer(b"RTL2838UHIDIR");
    let s = buffer(b"00000001");
    let u = Device::get_usb_strings(0, &m, &p, &s).ok().unwrap();
    assert_eq!(u.manufacture, "Realtek");
    assert_eq!(u.product, "RTL2838UHIDIR");
    assert_eq!(u.serial, "00000001");
}

#[test]
fn usb_strings_native_failure() {
    let b = buffer(b"x");
    assert_eq!(Device::get_usb_strings(-7, &b, &b, &b).err(), Some(Error::new(-7)));
}

#[test]
fn usb_strings_bad_text_fails_whole_call() {
    let good = buffer(b"ok");
    let bad = buffer(&[0x66, 0xff, 0x66]);
    assert_eq!(Device::get_usb_strings(0, &good, &good, &bad).err(), Some(Error::new(TEXT_DECODE_FAILURE)));
    assert_eq!(Device::get_usb_strings(0, &bad, &good, &good).err(), Some(Error::new(TEXT_DECODE_FAILURE)));
}

#[test]
fn c_text_stops_at_terminator() {
    assert_eq!(c_text_bytes(&[104, 105, 0, 106]), vec![104, 105]);
    assert_eq!(c_text_bytes(&[0, 1, 2]), Vec::<u8>::new());
    assert_eq!(c_text_bytes(&[1, 2, 3]), vec![1, 2, 3]);
    assert_eq!(c_text_bytes(&[]), Vec::<u8>::new());
}

#[test]
fn decode_multibyte_text() {
    assert_eq!(decode_c_text("Günther\0junk".as_bytes()), Ok("Günther".to_string()));
    assert_eq!(decode_c_text(&[0xc3, 0x28, 0]), Err(Error::new(TEXT_DECODE_FAILURE)));
    assert_eq!(decode_c_text(&[0xff; 256]), Err(Error::new(TEXT_DECODE_FAILURE)));
    assert_eq!(decode_c_text(&[0u8; 256]), Ok(String::new()));
}

#[test]
fn decode_requires_terminator() {
    assert_eq!(decode_c_text(&[b'a'; 256]), Err(Error::new(TEXT_DECODE_FAILURE)));
    assert_eq!(decode_c_text(b"abc"), Err(Error::new(TEXT_DECODE_FAILURE)));
    assert_eq!(decode_c_text(&[]), Err(Error::new(TEXT_DECODE_FAILURE)));
    assert_eq!(decode_c_text(b"abc\0"), Ok("abc".to_string()));
}

#[test]
fn usb_strings_unterminated_buffer_fails_whole_call() {
    let good = buffer(b"ok");
    let full = vec![b'a'; 256];
    assert_eq!(Device::get_usb_strings(0, &full, &good, &good).err(), Some(Error::new(TEXT_DECODE_FAILURE)));
    assert_eq!(Device::get_usb_strings(0, &good, &good, &full).err(), Some(Error::new(TEXT_DECODE_FAILURE)));
}

#[test]
fn serial_with_terminator_is_refused() {
    assert_eq!(encode_c_text("0000\u{0}0001"), Err(Error::new(INPUT_ENCODING_FAILURE)));
    assert_eq!(encode_c_text("\u{0}"), Err(Error::new(INPUT_ENCODING_FAILURE)));
}

#[test]
fn serial_encodes_with_terminator() {
    assert_eq!(encode_c_text("00000001"), Ok(b"00000001\0".to_vec()));
    assert_eq!(encode_c_text(""), Ok(vec![0]));
    assert_eq!(encode_c_text("é"), Ok(vec![0xc3, 0xa9, 0]));
}

#[test]
fn index_by_serial_reply() {
    assert_eq!(Device::get_index_by_serial("00000001", -1), Err(Error::new(-1)));
    assert_eq!(Device::get_index_by_serial("00000001", -3), Err(Error::new(-3)));
    assert_eq!(Device::get_index_by_serial("00000001", 0), Ok(0));
    assert_eq!(Device::get_index_by_serial("00000001", 4), Ok(4));
}

#[test]
fn index_by_serial_with_terminator_is_encoding_error() {
    assert_eq!(Device::get_index_by_serial("00\u{0}01", 0), Err(Error::new(INPUT_ENCODING_FAILURE)));
    assert_eq!(Device::get_index_by_serial("\u{0}", 3), Err(Error::new(INPUT_ENCODING_FAILURE)));
}

#[test]
fn zero_replies_are_failures() {
    assert_eq!(Device::get_center_freq(0), Err(Error::new(ZERO_REPLY)));
    assert_eq!(Device::get_center_freq(100_000_000), Ok(100_000_000));
    assert_eq!(Device::get_tuner_gain(0), Err(Error::new(ZERO_REPLY)));
    assert_eq!(Device::get_tuner_gain(-10), Ok(-10));
    assert_eq!(Device::get_sample_rate(0), Err(Error::new(ZERO_SAMPLE_RATE)));
}

#[test]
fn sample_rate_and_direct_sampling_scenario() {
    assert_eq!(Device::get_sample_rate(2_048_000), Ok(2_048_000));
    let code = DirectSampling::Q.to_native();
    assert_eq!(code, 2);
    assert_eq!(DirectSampling::from_native(code), Ok(DirectSampling::Q));
}

#[test]
fn direct_sampling_codes() {
    for d in [DirectSampling::Disabled, DirectSampling::I, DirectSampling::Q] {
        assert_eq!(DirectSampling::from_native(d.to_native()), Ok(d));
    }
    assert_eq!(DirectSampling::Disabled.to_native(), 0);
    assert_eq!(DirectSampling::I.to_native(), 1);
    assert_eq!(DirectSampling::from_native(3), Err(Error::new(UNEXPECTED_MODE)));
    assert_eq!(DirectSampling::from_native(-1), Err(Error::new(UNEXPECTED_MODE)));
}

#[test]
fn tuner_codes() {
    assert_eq!(Tuner::from_native(0), Tuner::UNKNOWN);
    assert_eq!(Tuner::from_native(1), Tuner::E4000);
    assert_eq!(Tuner::from_native(2), Tuner::FC0012);
    assert_eq!(Tuner::from_native(3), Tuner::FC0013);
    assert_eq!(Tuner::from_native(4), Tuner::FC2580);
    assert_eq!(Tuner::from_native(5), Tuner::R820T);
    assert_eq!(Tuner::from_native(6), Tuner::R828D);
    assert_eq!(Tuner::from_native(7), Tuner::UNKNOWN);
    assert_eq!(Tuner::from_native(u32::MAX), Tuner::UNKNOWN);
}

#[test]
fn flags() {
    assert_eq!(native_flag(true), 1);
    assert_eq!(native_flag(false), 0);
    assert_eq!(flag_from_native(0), Ok(false));
    assert_eq!(flag_from_native(1), Ok(true));
    assert_eq!(flag_from_native(2), Err(Error::new(UNEXPECTED_MODE)));
}

#[test]
fn integer_narrowing() {
    assert_eq!(signed_to_native(-45), Ok(-45));
    assert_eq!(signed_to_native(i32::MIN as isize), Ok(i32::MIN));
    assert_eq!(signed_to_native(i32::MAX as isize + 1), Err(Error::new(INPUT_ENCODING_FAILURE)));
    assert_eq!(unsigned_to_native(5), Ok(5));
    assert_eq!(unsigned_to_native(i32::MAX as usize + 1), Err(Error::new(INPUT_ENCODING_FAILURE)));
}

#[test]
fn tuner_gains_two_phases() {
    assert_eq!(Device::tuner_gains_buffer(0), Err(Error::new(0)));
    assert_eq!(Device::tuner_gains_buffer(-5), Err(Error::new(-5)));
    let buf = Device::tuner_gains_buffer(3).unwrap();
    assert_eq!(buf, vec![0, 0, 0]);
    let filled = vec![0, 9, 14];
    assert_eq!(Device::get_tuner_gains(3, 3, filled.clone()), Ok(filled));
    assert_eq!(Device::get_tuner_gains(3, 2, vec![0, 9, 14]), Err(Error::new(2)));
    assert_eq!(Device::get_tuner_gains(3, -1, vec![0, 9, 14]), Err(Error::new(-1)));
    assert_eq!(Device::get_tuner_gains(0, 0, vec![]), Err(Error::new(0)));
    assert_eq!(Device::get_tuner_gains(-2, -2, vec![]), Err(Error::new(-2)));
}

#[test]
fn tuner_gains_requery_identical() {
    let first = Device::get_tuner_gains(4, 4, vec![0, 9, 14, 27]).unwrap();
    let second = Device::get_tuner_gains(4, 4, vec![0, 9, 14, 27]).unwrap();
    assert_eq!(first, second);
}

#[test]
fn empty_read_needs_no_transfer() {
    assert_eq!(Device::read_request(0), ReadStep::Complete(0));
    assert_eq!(Device::read_request(512), ReadStep::Transfer(512));
    assert_eq!(Device::read_request(usize::MAX), ReadStep::Transfer(i32::MAX));
    assert_eq!(Device::read(0, -1, 7), Ok(0));
    assert_eq!(Device::read(0, 0, 0), Ok(0));
}

#[test]
fn read_reply() {
    assert_eq!(Device::read(512, 0, 512), Ok(512));
    assert_eq!(Device::read(512, 0, 100), Ok(100));
    assert_eq!(Device::read(512, -1, 0), Err(Error::new(-1)));
    assert_eq!(Device::read(512, 0, 513), Err(Error::new(513)));
    assert_eq!(Device::read(512, 0, -2), Err(Error::new(-2)));
    assert_eq!(Device::read(usize::MAX, 0, i32::MAX), Ok(i32::MAX as usize));
}

#[test]
fn streaming_session_steps() {
    let phase = read_async_start();
    assert_eq!(phase, StreamPhase::Resetting);
    assert!(matches!(read_async_step(phase, 0), StreamAction::StartStreaming));
    assert!(matches!(read_async_step(phase, -4), StreamAction::Finish(Err(e)) if e == Error::new(-4)));
    assert!(matches!(read_async_step(StreamPhase::Streaming, 0), StreamAction::Finish(Ok(()))));
    assert!(matches!(read_async_step(StreamPhase::Streaming, -9), StreamAction::Finish(Err(e)) if e.code() == -9));
}
