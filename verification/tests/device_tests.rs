use quadcopter::cli::{print_due, Base};
use quadcopter::flash::flash::{
    address_frame, erase_sector_frame, is_busy, jedec_id_frame, page_program_frame, read_frame,
    read_status1_frame, reset_frames, status_from_response, verify_jedec_id, write_enable_frame,
    FlashError, W25Q128,
};
use quadcopter::flash::reg::{Command, JEDEC_ID};
use quadcopter::icm42688p::config::{AccelFSR, AccelODR, GyroFSR, GyroODR};
use quadcopter::icm42688p::icm42688p::{
    burst_read_command, clear_int_status_op, decode_sample, enable_int_op, pwr_mgmt0_value,
    read_reg_frame, sensor_config_value, soft_reset_op, startup_sequence, write_reg_frame, ImuOp,
};
use quadcopter::icm42688p::reg::{Bank0, Bank1, Bank3, Bank4, BankNum};
use quadcopter::pwm::pwm::{clamp_pulse_us, pulse_offset_us, PULSE_MAX_US, PULSE_MIN_US};
use quadcopter::pwm::reg::{PeriphBase, TimReg};

#[test]
fn register_addresses() {
    assert_eq!(Bank0::WhoAmI.addr(), 0x75);
    assert_eq!(Bank0::PwrMGMT0.addr(), 0x4E);
    assert_eq!(Bank0::AccelDataX1.addr(), 0x1F);
    assert_eq!(Bank0::IntStatus.addr(), 0x2D);
    assert_eq!(Bank1::INTFConfig6.addr(), 0x7C);
    assert_eq!(Bank3::CLKDIV.addr(), 0x2A);
    assert_eq!(Bank4::OffsetUser8.addr(), 0x7F);
    assert_eq!(BankNum::Bank4.number(), 4);
}

#[test]
fn config_codes() {
    assert_eq!(GyroODR::Hz500.code(), 0b1111);
    assert_eq!(GyroFSR::Dps15_625.code(), 0b111);
    assert_eq!(AccelODR::Hz1_5625.code(), 0b1110);
    assert_eq!(AccelFSR::G2.code(), 0b011);
}

#[test]
fn imu_frames() {
    assert_eq!(read_reg_frame(0x75), [0xF5, 0x00]);
    assert_eq!(write_reg_frame(0x4E, 0x0F), [0x4E, 0x0F]);
    assert_eq!(burst_read_command(), [0x9F]);
    assert_eq!(pwr_mgmt0_value(), 0x0F);
    assert_eq!(sensor_config_value(0b011, 0b0100), 0x64);
    assert_eq!(enable_int_op(), ImuOp::WriteReg(0x14, 0b100));
    assert_eq!(soft_reset_op(), ImuOp::WriteReg(0x11, 1));
    assert_eq!(clear_int_status_op(), ImuOp::ReadReg(0x2D));
}

#[test]
fn imu_startup_sequence() {
    assert_eq!(
        startup_sequence(),
        vec![
            ImuOp::DelayMs(100),
            ImuOp::ReadReg(0x75),
            ImuOp::DelayMs(100),
            ImuOp::WriteReg(0x4E, 0x0F),
            ImuOp::DelayMs(100),
            ImuOp::WriteReg(0x4F, 0x04),
            ImuOp::WriteReg(0x50, 0x04),
            ImuOp::DelayMs(100),
        ]
    );
}

#[test]
fn imu_sample_decoding() {
    let buf = [0x00, 0x01, 0xFF, 0xFF, 0x80, 0x00, 0x7F, 0xFF, 0x12, 0x34, 0xF0, 0x00];
    let s = decode_sample(&buf);
    assert_eq!((s.accel.x, s.accel.y, s.accel.z), (1, -1, -32768));
    assert_eq!((s.gyro.x, s.gyro.y, s.gyro.z), (32767, 0x1234, -4096));
}

#[test]
fn flash_frames() {
    assert_eq!(read_frame(0x0012_3456), [0x03, 0x12, 0x34, 0x56]);
    assert_eq!(page_program_frame(0x00AB_CDEF, 256), [0x02, 0xAB, 0xCD, 0xEF]);
    assert_eq!(erase_sector_frame(0xFF00_1000), [0x20, 0x00, 0x10, 0x00]);
    assert_eq!(address_frame(Command::FastRead, 1), [0x0B, 0, 0, 1]);
    assert_eq!(write_enable_frame(), [0x06]);
    assert_eq!(read_status1_frame(), [0x05, 0x00]);
    assert_eq!(jedec_id_frame(), [0x9F]);
    assert_eq!(reset_frames(), ([0x66], [0x99]));
    assert_eq!(status_from_response(&[0xAA, 0x03]), 0x03);
}

#[test]
fn flash_busy_bit() {
    assert!(is_busy(0x01));
    assert!(is_busy(0x03));
    assert!(!is_busy(0x02));
    assert!(!is_busy(0x00));
}

#[test]
fn flash_identity() {
    assert!(verify_jedec_id::<()>(&JEDEC_ID).is_ok());
    assert!(matches!(verify_jedec_id::<()>(&[0xEF, 0x40, 0x17]), Err(FlashError::InvalidDevice)));
    assert!(matches!(verify_jedec_id::<()>(&[0, 0, 0]), Err(FlashError::InvalidDevice)));
}

#[test]
fn flash_holds_its_bus() {
    let mut dev = W25Q128::new(5u32);
    *dev.spi() += 1;
    assert_eq!(dev.release(), 6);
}

#[test]
fn esc_pulse_limits() {
    assert_eq!(clamp_pulse_us(0), PULSE_MIN_US);
    assert_eq!(clamp_pulse_us(999), 1000);
    assert_eq!(clamp_pulse_us(1500), 1500);
    assert_eq!(clamp_pulse_us(2001), PULSE_MAX_US);
    assert_eq!(clamp_pulse_us(u32::MAX), 2000);
    assert_eq!(pulse_offset_us(900), 0);
    assert_eq!(pulse_offset_us(1750), 750);
}

#[test]
fn peripheral_addresses() {
    assert_eq!(PeriphBase::Rcc.address(), 0x4002_3800);
    assert_eq!(PeriphBase::Tim3.address(), 0x4000_0400);
    assert_eq!(TimReg::Ccr4.offset(), 0x40);
    assert_eq!(TimReg::Arr.offset(), 0x2C);
}

#[test]
fn cli_replies() {
    assert_eq!(Base::Hello { name: Some("Pilot") }.reply(), "Hello, Pilot");
    assert_eq!(Base::Hello { name: None }.reply(), "Hello, World");
    assert_eq!(Base::Exit.reply(), "Exit");
}

#[test]
fn cli_print_schedule() {
    assert!(print_due(None, 0));
    assert!(!print_due(Some(0), 9_999));
    assert!(print_due(Some(0), 10_000));
    assert!(print_due(Some(5), 20_000));
}
