//! ICM-42688-P driver logic: the SPI frames that access registers, the
//! start-up sequence, and the decoding of a burst read of sensor data.
//!
//! The bus transfers and delays themselves are carried out by the firmware,
//! which performs each [`ImuOp`] in turn.
use vstd::prelude::*;
use super::reg::Bank0;
use super::config::{
    GyroODR,
    GyroFSR,
    AccelODR,
    AccelFSR,
    GYRO_ODR,
    GYRO_FSR,
    ACCEL_ODR,
    ACCEL_FSR,
    ACTIVE_CMD,
    GYRO_PWR_CMD,
    ACCEL_PWR_CMD,
};

verus! {

/// Bit 7 of the first SPI byte: set for a register read, clear for a write.
pub const READ_FLAG: u8 = 0x80;

/// First register of the burst read: ACCEL_DATA_X1.
pub const DATA_READ_START_REG: u8 = 0x1F;

/// Bytes in a burst read: accelerometer X, Y, Z then gyroscope X, Y, Z,
/// each most significant byte first.
pub const DATA_READ_LEN: usize = 12;

/// Errors of the IMU driver: a bus error, or a device that does not answer
/// with the expected identity.
#[derive(Debug)]
pub enum ImuError<E> {
    Spi(E),
    WhoAmI,
}

/// One step of talking to the IMU.
#[derive(Debug, Clone, Copy, PartialEq, Eq, Structural)]
pub enum ImuOp {
    /// Wait this many milliseconds.
    DelayMs(u32),
    /// Read the register at this address.
    ReadReg(u8),
    /// Write a value to the register at an address.
    WriteReg(u8, u8),
}

/// The two-byte SPI frame that reads register `addr`: the address with the
/// read flag set, then a byte that clocks the value out.
pub fn read_reg_frame(addr: u8) -> (r: [u8; 2])
    ensures
        r@ == seq![addr | READ_FLAG, 0u8],
{
    let r = [addr | READ_FLAG, 0u8];
    assert(r@ =~= seq![addr | READ_FLAG, 0u8]);
    r
}

/// The two-byte SPI frame that writes `data` to register `addr`.
pub fn write_reg_frame(addr: u8, data: u8) -> (r: [u8; 2])
    ensures
        r@ == seq![addr, data],
{
    let r = [addr, data];
    assert(r@ =~= seq![addr, data]);
    r
}

/// The command byte that starts a burst read of the sensor data.
pub fn burst_read_command() -> (r: [u8; 1])
    ensures
        r@ == seq![DATA_READ_START_REG | READ_FLAG],
{
    let r = [DATA_READ_START_REG | READ_FLAG];
    assert(r@ =~= seq![DATA_READ_START_REG | READ_FLAG]);
    r
}

/// The value of register PWR_MGMT0 that switches the sensors on.
pub open spec fn spec_pwr_mgmt0_value() -> u8 {
    (ACTIVE_CMD * 16 + GYRO_PWR_CMD * 4 + ACCEL_PWR_CMD) as u8
}

/// The value of register PWR_MGMT0 that switches the sensors on: the idle
/// bit, the gyroscope mode and the accelerometer mode.
pub fn pwr_mgmt0_value() -> (r: u8)
    ensures
        r == spec_pwr_mgmt0_value(),
{
    let r = (ACTIVE_CMD << 4u8) | (GYRO_PWR_CMD << 2u8) | ACCEL_PWR_CMD;
    assert(r == 15) by (bit_vector)
        requires
            r == (0u8 << 4u8) | (3u8 << 2u8) | 3u8,
    ;
    r
}

/// A GYRO_CONFIG0 or ACCEL_CONFIG0 value: full-scale range in bits 7 to 5,
/// data rate in bits 3 to 0.
pub open spec fn spec_sensor_config(fsr: u8, odr: u8) -> u8 {
    (fsr * 32 + odr) as u8
}

/// Packs a full-scale range and a data rate into a sensor configuration value.
pub fn sensor_config_value(fsr: u8, odr: u8) -> (r: u8)
    requires
        fsr < 8,
        odr < 16,
    ensures
        r == spec_sensor_config(fsr, odr),
{
    let r = (fsr << 5u8) | odr;
    assert(r == fsr * 32 + odr) by (bit_vector)
        requires
            fsr < 8,
            odr < 16,
            r == (fsr << 5u8) | odr,
    ;
    r
}

/// Law: a sensor configuration value holds the range code in bits 7 to 5
/// and the rate code in bits 3 to 0, with bit 4 clear: both codes can be
/// read back from it.
pub proof fn lemma_sensor_config_fields(fsr: u8, odr: u8)
    requires
        fsr < 8,
        odr < 16,
    ensures
        spec_sensor_config(fsr, odr) >> 5u8 == fsr,
        spec_sensor_config(fsr, odr) & 0x0Fu8 == odr,
        spec_sensor_config(fsr, odr) & 0x10u8 == 0,
{
    let v = spec_sensor_config(fsr, odr);
    assert(v == fsr * 32 + odr);
    assert(v >> 5u8 == fsr && v & 0x0Fu8 == odr && v & 0x10u8 == 0) by (bit_vector)
        requires
            fsr < 8,
            odr < 16,
            v == fsr * 32 + odr,
    ;
}

/// The gyroscope configuration the firmware programs.
pub open spec fn spec_gyro_config() -> u8 {
    spec_sensor_config(GYRO_FSR.spec_code(), GYRO_ODR.spec_code())
}

/// The accelerometer configuration the firmware programs.
pub open spec fn spec_accel_config() -> u8 {
    spec_sensor_config(ACCEL_FSR.spec_code(), ACCEL_ODR.spec_code())
}

/// Start-up: wait for power-on, read WHO_AM_I, switch the sensors on,
/// program the gyroscope and accelerometer, and wait for them to settle.
pub open spec fn spec_startup_sequence() -> Seq<ImuOp> {
    seq![
        ImuOp::DelayMs(100),
        ImuOp::ReadReg(Bank0::WhoAmI.spec_addr()),
        ImuOp::DelayMs(100),
        ImuOp::WriteReg(Bank0::PwrMGMT0.spec_addr(), spec_pwr_mgmt0_value()),
        ImuOp::DelayMs(100),
        ImuOp::WriteReg(Bank0::GyroConfig0.spec_addr(), spec_gyro_config()),
        ImuOp::WriteReg(Bank0::AccelConfig0.spec_addr(), spec_accel_config()),
        ImuOp::DelayMs(100),
    ]
}

/// The write that switches the sensors on.
pub fn start_sensors_op() -> (r: ImuOp)
    ensures
        r == ImuOp::WriteReg(Bank0::PwrMGMT0.spec_addr(), spec_pwr_mgmt0_value()),
{
    ImuOp::WriteReg(Bank0::PwrMGMT0.addr(), pwr_mgmt0_value())
}

/// The writes that program the gyroscope, then the accelerometer.
pub fn sensor_config_ops() -> (r: [ImuOp; 2])
    ensures
        r@ == seq![
            ImuOp::WriteReg(Bank0::GyroConfig0.spec_addr(), spec_gyro_config()),
            ImuOp::WriteReg(Bank0::AccelConfig0.spec_addr(), spec_accel_config()),
        ],
{
    let gyro = GYRO_FSR.code();
    let gyro_rate = GYRO_ODR.code();
    let accel = ACCEL_FSR.code();
    let accel_rate = ACCEL_ODR.code();
    let r = [
        ImuOp::WriteReg(Bank0::GyroConfig0.addr(), sensor_config_value(gyro, gyro_rate)),
        ImuOp::WriteReg(Bank0::AccelConfig0.addr(), sensor_config_value(accel, accel_rate)),
    ];
    assert(r@ =~= seq![
        ImuOp::WriteReg(Bank0::GyroConfig0.spec_addr(), spec_gyro_config()),
        ImuOp::WriteReg(Bank0::AccelConfig0.spec_addr(), spec_accel_config()),
    ]);
    r
}

/// The write that routes the data-ready interrupt to pin INT1.
pub fn enable_int_op() -> (r: ImuOp)
    ensures
        r == ImuOp::WriteReg(Bank0::IntConfig.spec_addr(), 4),
{
    let v: u8 = 1u8 << 2u8;
    assert(v == 4) by (bit_vector)
        requires
            v == 1u8 << 2u8,
    ;
    ImuOp::WriteReg(Bank0::IntConfig.addr(), v)
}

/// The write that resets the device.
pub fn soft_reset_op() -> (r: ImuOp)
    ensures
        r == ImuOp::WriteReg(Bank0::DeviceConfig.spec_addr(), 1),
{
    ImuOp::WriteReg(Bank0::DeviceConfig.addr(), 1)
}

/// The read that clears the interrupt status after a sample.
pub fn clear_int_status_op() -> (r: ImuOp)
    ensures
        r == ImuOp::ReadReg(Bank0::IntStatus.spec_addr()),
{
    ImuOp::ReadReg(Bank0::IntStatus.addr())
}

/// The start-up sequence, step by step.
pub fn startup_sequence() -> (r: Vec<ImuOp>)
    ensures
        r@ == spec_startup_sequence(),
{
    let mut r: Vec<ImuOp> = Vec::new();
    r.push(ImuOp::DelayMs(100));
    r.push(ImuOp::ReadReg(Bank0::WhoAmI.addr()));
    r.push(ImuOp::DelayMs(100));
    r.push(start_sensors_op());
    r.push(ImuOp::DelayMs(100));
    let config = sensor_config_ops();
    r.push(config[0]);
    r.push(config[1]);
    r.push(ImuOp::DelayMs(100));
    assert(r@ =~= spec_startup_sequence());
    r
}

/// A signed 16-bit sample sent most significant byte first.
pub open spec fn be_i16(hi: u8, lo: u8) -> int {
    let v = hi as int * 256 + lo as int;
    if v >= 32768 {
        v - 65536
    } else {
        v
    }
}

/// Law: a sample is a signed 16-bit value, and every such value is read
/// back from its two's-complement bytes sent most significant first.
pub proof fn lemma_be_i16_roundtrip(hi: u8, lo: u8, v: i16)
    ensures
        -32768 <= be_i16(hi, lo) <= 32767,
        be_i16(((v as int + 65536) % 65536 / 256) as u8, ((v as int + 65536) % 256) as u8)
            == v,
{
}

/// Raw readings of one sensor on its three axes.
#[derive(Debug, Clone, Copy, PartialEq, Eq, Structural)]
pub struct RawAxes {
    pub x: i16,
    pub y: i16,
    pub z: i16,
}

/// Raw accelerometer and gyroscope readings from one burst read.
#[derive(Debug, Clone, Copy, PartialEq, Eq, Structural)]
pub struct RawSample {
    pub accel: RawAxes,
    pub gyro: RawAxes,
}

/// Joins a big-endian byte pair into a signed sample.
fn be_word(hi: u8, lo: u8) -> (r: i16)
    ensures
        r as int == be_i16(hi, lo),
{
    let w: u16 = ((hi as u16) << 8u16) | (lo as u16);
    assert(w == hi as u16 * 256 + lo as u16) by (bit_vector)
        requires
            w == ((hi as u16) << 8u16) | (lo as u16),
    ;
    let r = w as i16;
    assert(r as int == (if w >= 32768 { w as int - 65536 } else { w as int })) by (bit_vector)
        requires
            r == w as i16,
    ;
    r
}

/// Decodes a burst read: accelerometer X, Y, Z, then gyroscope X, Y, Z,
/// each a signed big-endian 16-bit value.
pub fn decode_sample(buf: &[u8; DATA_READ_LEN]) -> (s: RawSample)
    ensures
        s.accel.x as int == be_i16(buf@[0], buf@[1]),
        s.accel.y as int == be_i16(buf@[2], buf@[3]),
        s.accel.z as int == be_i16(buf@[4], buf@[5]),
        s.gyro.x as int == be_i16(buf@[6], buf@[7]),
        s.gyro.y as int == be_i16(buf@[8], buf@[9]),
        s.gyro.z as int == be_i16(buf@[10], buf@[11]),
{
    RawSample {
        accel: RawAxes {
            x: be_word(buf[0], buf[1]),
            y: be_word(buf[2], buf[3]),
            z: be_word(buf[4], buf[5]),
        },
        gyro: RawAxes {
            x: be_word(buf[6], buf[7]),
            y: be_word(buf[8], buf[9]),
            z: be_word(buf[10], buf[11]),
        },
    }
}

} // verus!
