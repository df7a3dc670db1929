use k210_dvp::regs::Register;
use k210_dvp::sequence::Step;
use k210_dvp::{image_format, sccb_addr_len, DVP};
use k210_hal::pac::dvp::axi::GM_MLEN_A;
use k210_hal::pac::dvp::dvp_cfg::FORMAT_A;
use k210_hal::pac::dvp::sccb_cfg::BYTE_NUM_A;

fn bits_of(step: Step) -> u32 {
    match step {
        Step::Modify { bits, .. } => bits,
        _ => panic!("not a modify step"),
    }
}

#[test]
fn format_field_holds_the_access_crates_code() {
    let dvp = DVP::new();
    for (format, theirs) in [
        (image_format::RGB, FORMAT_A::RGB),
        (image_format::YUV, FORMAT_A::YUV),
        (image_format::Y, FORMAT_A::Y),
    ] {
        let op = dvp.set_image_format(format);
        assert_eq!(bits_of(op.steps()[0]), (u8::from(theirs) as u32) << 9);
    }
    assert_eq!(bits_of(dvp.set_image_format(image_format::Y).steps()[0]), 3 << 9);
}

#[test]
fn byte_count_field_holds_the_access_crates_code() {
    let mut dvp = DVP::new();
    let send = dvp.sccb_send_data(0, 0, 0);
    assert_eq!(bits_of(send.steps()[0]), u8::from(BYTE_NUM_A::NUM3) as u32);
    let receive = dvp.sccb_receive_data(0, 0);
    assert_eq!(bits_of(receive.steps()[0]), u8::from(BYTE_NUM_A::NUM2) as u32);
    let _ = dvp.init(sccb_addr_len::W16);
    let send = dvp.sccb_send_data(0, 0, 0);
    assert_eq!(bits_of(send.steps()[0]), u8::from(BYTE_NUM_A::NUM4) as u32);
    assert_eq!(bits_of(send.steps()[0]), 3);
    let receive = dvp.sccb_receive_data(0, 0);
    assert_eq!(bits_of(receive.steps()[0]), u8::from(BYTE_NUM_A::NUM3) as u32);
}

#[test]
fn burst_length_field_holds_the_access_crates_code() {
    let dvp = DVP::new();
    let on = dvp.enable_burst();
    assert_eq!(
        on.steps()[1],
        Step::Modify {
            reg: Register::Axi,
            mask: 0xff,
            bits: u8::from(GM_MLEN_A::BYTE4) as u32
        }
    );
    assert_eq!(bits_of(on.steps()[1]), 3);
    let off = dvp.disable_burst();
    assert_eq!(bits_of(off.steps()[1]), u8::from(GM_MLEN_A::BYTE1) as u32);
}
