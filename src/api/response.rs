//! Inbound documents, one variant per top-level key of the wire document.

use vstd::prelude::*;

verus! {

/// Root of an inbound document. Analog readings are left out: they carry
/// floating-point voltages.
#[derive(Debug)]
pub enum Response {
    Ws(WS),
    System(System),
    Io0(Io),
    Io1(Io),
    Io2(Io),
    Io3(Io),
    Io4(Io),
    Io5(Io),
    Io6(Io),
    Io7(Io),
    Io8(Io),
    Io9(Io),
    Io10(Io),
    Io11(Io),
    Io { animation: IoAnimation },
    Uart0(Uart),
    Uart1(Uart),
    Spi0(Spi),
    Spi1(Spi),
    I2c0(I2c),
    LogicAnalyzer(LogicAnalyzer),
    Measure(Measure),
    Switch { state: String, action: String },
    Tcp0(Tcp),
    Wifi(Wifi),
    Ble(Ble),
    Message(Message),
    Debug(Debug),
}

/// Connection notices.
#[derive(Debug)]
pub enum WS {
    Ready(bool),
    Obniz(Obniz),
    Redirect(String),
}

/// The device's self-description on connect.
#[derive(Debug)]
pub struct Obniz {
    pub hw: String,
    pub firmware: String,
    pub metadata: String,
}

#[derive(Debug)]
pub enum System {
    Pon { key: Vec<i64> },
}

/// Reports of one I/O pin.
#[derive(Debug)]
pub enum Io {
    Flag,
    Warning { message: String },
    Error { message: String },
}

#[derive(Debug)]
pub struct IoAnimation {
    pub name: String,
    pub status: String,
}

#[derive(Debug)]
pub struct Uart {
    data: Vec<u8>,
}

#[derive(Debug)]
pub struct Spi {
    data: Vec<i64>,
}

#[derive(Debug)]
pub enum I2c {
    I2cMaster,
    I2cSlave,
    Error { message: String },
    Warning { message: String },
}

#[derive(Debug)]
pub struct I2cMaster {
    pub mode: String,
    pub address: i64,
    pub date: Vec<i64>,
}

#[derive(Debug)]
pub struct I2cSlave {
    pub mode: String,
    pub address: i64,
    pub is_flagmented: bool,
    pub date: Vec<i64>,
}

#[derive(Debug)]
pub struct LogicAnalyzer {
    pub data: Vec<u8>,
}

#[derive(Debug)]
pub struct Measure {
    pub echo: Vec<Echo>,
}

#[derive(Debug)]
pub struct Echo {
    pub edge: bool,
    pub timing: u32,
}

#[derive(Debug)]
pub enum Tcp {
    Read(Vec<i64>),
    Connect { message: String, code: i64 },
    Connected(bool),
}

#[derive(Debug)]
pub struct Wifi {
    scan: Vec<i64>,
}

#[derive(Debug)]
pub struct Ble {
    hci: Hci,
}

#[derive(Debug)]
pub struct Hci {
    read: Read,
}

#[derive(Debug)]
pub struct Read {
    data: Vec<i64>,
}

/// A message from another device.
#[derive(Debug)]
pub struct Message {
    pub data: String,
    pub from: String,
}

#[derive(Debug)]
pub struct Plugin {
    pub receive: Vec<i64>,
}

/// Warnings and errors the device reports.
#[derive(Debug)]
pub enum Debug {
    Warning { message: String },
    Error { message: String },
}

} // verus!
