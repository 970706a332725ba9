//! Outbound commands, one variant per top-level key of the wire document.

use vstd::prelude::*;

verus! {

/// Root of an outbound command.
#[derive(Debug)]
pub enum Request {
    Ws(WS),
    System(System),
    Io0(Io),
    Io1(Io),
    Io2(Io),
    Io3(Io),
    Io4(Io),
    Io5(Io),
    Io6(Io),
    Io7(Io),
    Io8(Io),
    Io9(Io),
    Io10(Io),
    Io11(Io),
    Io { animation: IoAnimation },
    Ad0(Ad),
    Ad1(Ad),
    Ad2(Ad),
    Ad3(Ad),
    Ad4(Ad),
    Ad5(Ad),
    Ad6(Ad),
    Ad7(Ad),
    Ad8(Ad),
    Ad9(Ad),
    Ad10(Ad),
    Ad11(Ad),
    Uart0(Uart),
    Uart1(Uart),
    Spi0(Spi),
    Spi1(Spi),
    I2c0(I2c),
    LogicAnalyzer(LogicAnalyzer),
    Switch(String),
    Display(Display),
    Tcp0(Tcp),
    Wifi(Wifi),
    Ble(Ble),
    Message(Message),
    Plugin(Plugin),
}

/// Connection settings.
#[derive(Debug)]
pub struct WS {
    pub reset_obniz_on_ws_disconnection: bool,
}

/// Board-wide commands.
#[derive(Debug)]
pub enum System {
    Wait(i64),
    Reset(bool),
    Reboot(bool),
    SelfCheck(bool),
    KeepWorkingAtOffline(bool),
    Ping(bool),
    SleepSeconds(i64),
    SleepMinute(i64),
    SleepIoTrigger(bool),
}

/// Commands of one I/O pin.
#[derive(Debug)]
pub enum Io {
    Text,
    InputDetail,
    Flag,
    OutputDetail,
    Direction(String),
    Value(bool),
    OutputType(String),
    PullType(String),
    Deinit,
}

#[derive(Debug)]
pub struct InputDetail {
    pub direction: String,
    pub stream: bool,
}

#[derive(Debug)]
pub struct OutputDetail {
    pub direction: String,
    pub value: bool,
}

#[derive(Debug)]
pub enum IoAnimation {
    IoAnimationInit,
    IoAnimationChangeState,
}

#[derive(Debug)]
pub struct IoAnimationInit {
    pub name: String,
    pub repeat: i64,
    pub status: String,
    pub states: Vec<State>,
}

#[derive(Debug)]
pub struct State {
    pub dulation: u64,
    pub state: PwmIOState,
}

#[derive(Debug)]
pub enum PwmIOState {
    Io,
    Pwm,
}

#[derive(Debug)]
pub struct IoAnimationChangeState {
    pub name: String,
    pub status: String,
}

/// Commands of one analog input channel.
#[derive(Debug)]
pub enum Ad {
    Stream(bool),
    Deinit,
}

/// Commands of one UART channel.
#[derive(Debug)]
pub enum Uart {
    UartInit,
    UartSend,
    Deinit,
}

#[derive(Debug)]
pub struct UartInit {
    pub rx: u8,
    pub tx: u8,
    pub baud: u64,
    pub stop: u8,
    pub bits: u8,
    pub parity: u8,
    pub flowcontrol: String,
    pub rts: u8,
    pub cts: u8,
}

#[derive(Debug)]
pub struct UartSend {
    pub data: Vec<u8>,
}

#[derive(Debug)]
pub enum Spi {
    SpiInitMaster,
    Deinit,
    SpiWrite,
}

#[derive(Debug)]
pub struct SpiInitMaster {
    pub mode: String,
    pub clk: u8,
    pub mosi: u8,
    pub miso: u8,
    pub clock: u64,
}

#[derive(Debug)]
pub struct SpiWrite {
    pub data: Vec<u64>,
    pub read: bool,
}

#[derive(Debug)]
pub enum I2c {
    I2cInitMaster,
    I2cInitSlave,
    I2cWrite,
    I2cRead,
    Deinit,
}

#[derive(Debug)]
pub struct I2cInitMaster {
    pub mode: String,
    pub sda: u8,
    pub scl: u8,
    pub clock: u64,
}

#[derive(Debug)]
pub struct I2cInitSlave {
    pub mode: String,
    pub sda: u8,
    pub scl: u8,
    pub slave_address: u16,
    pub slave_address_length: u16,
    pub address: u16,
    pub address_bits: u16,
    pub data: Vec<u8>,
    pub read: u64,
}

#[derive(Debug)]
pub struct I2cWrite {
    pub address: u16,
    pub address_bits: u16,
    pub data: Vec<u16>,
}

#[derive(Debug)]
pub struct I2cRead {
    pub address: u16,
    pub address_bits: u16,
    pub read: u16,
}

#[derive(Debug)]
pub enum LogicAnalyzer {
    LogicAnalyzerInit,
    Deinit,
}

#[derive(Debug)]
pub struct LogicAnalyzerInit {
    pub io: Vec<u64>,
    pub interval: u64,
    pub dulation: u64,
    pub trigger: Trigger,
}

#[derive(Debug)]
pub struct Trigger {
    pub value: bool,
    pub samples: u64,
}

/// Commands of the display.
#[derive(Debug)]
pub enum Display {
    Text(String),
    Clear(bool),
    Qr(Qr),
    Raw,
    PinAssign(PinAssign),
}

#[derive(Debug)]
pub struct Raw {
    raw: Vec<i64>,
    color_depth: i64,
}

/// Assignment of one of the twelve pins to a module.
#[derive(Debug)]
pub enum PinAssign {
    Pin0(Pin),
    Pin1(Pin),
    Pin2(Pin),
    Pin3(Pin),
    Pin4(Pin),
    Pin5(Pin),
    Pin6(Pin),
    Pin7(Pin),
    Pin8(Pin),
    Pin9(Pin),
    Pin10(Pin),
    Pin11(Pin),
}

#[derive(Debug)]
pub struct Pin {
    pub module_name: String,
    pub pin_name: String,
}

#[derive(Debug)]
pub struct Qr {
    text: String,
    correction: String,
}

#[derive(Debug)]
pub enum Tcp {
    Connect { port: i64, domain: String },
    Disconect(bool),
    Write { data: Vec<i64> },
}

#[derive(Debug)]
pub struct Wifi {
    scan: bool,
}

#[derive(Debug)]
pub struct Ble {
    pub hci: Hci,
}

#[derive(Debug)]
pub enum Hci {
    Initialize(bool),
    Deinit,
    Write(Vec<i64>),
    AdvertisementFilter(Vec<AdvertisementFilterStruct>),
}

#[derive(Debug)]
pub struct AdvertisementFilterStruct {
    range: Range,
    value: Vec<i64>,
}

#[derive(Debug)]
pub struct Range {
    index: i64,
    length: i64,
}

/// A message to other devices.
#[derive(Debug)]
pub struct Message {
    data: String,
    to: Vec<String>,
}

#[derive(Debug)]
pub struct Plugin {
    pub send: Vec<i64>,
}

} // verus!
