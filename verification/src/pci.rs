//! The device bus as far as it can be computed: the address of a
//! configuration register, whether an identifier names a device, and the
//! report on what a scan has read.

#![allow(non_snake_case)]

use vstd::prelude::*;
use vstd::string::*;
use crate::fs::text::{decimal, push_decimal, push_upper_hex, upper_hex};

verus! {

/// What a scan has read of one slot of the bus: the first register, which
/// identifies the device, the register at offset 8, which classifies it, and
/// the register at offset 0x3C, which names its interrupt line.
#[derive(Clone, Copy, Debug, PartialEq, Eq)]
pub struct DeviceReading {
    pub bus: u32,
    pub device: u32,
    pub id: u32,
    pub class: u32,
    pub irq: u32,
}

/// The address that selects a configuration register: the enable bit, then
/// the bus, the device, the function and the offset, each in its own field.
pub open spec fn config_address_of(bus: u32, device: u32, func: u32, offset: u32) -> u32 {
    0x8000_0000u32 | ((bus & 0xFF) << 16) | ((device & 0x1F) << 11) | ((func & 0x07) << 8) | (offset
        & 0xFC)
}

/// The address that selects a configuration register. Whatever the
/// arguments, the enable bit is set, the two lowest bits are clear, and each
/// field holds its argument as far as the field is wide.
pub fn config_address(bus: u32, device: u32, func: u32, offset: u32) -> (r: u32)
    ensures
        r == config_address_of(bus, device, func, offset),
        r & 0x8000_0003 == 0x8000_0000,
        (r >> 16) & 0xFF == bus & 0xFF,
        (r >> 11) & 0x1F == device & 0x1F,
        (r >> 8) & 0x07 == func & 0x07,
        r & 0xFC == offset & 0xFC,
{
    let r = 0x8000_0000u32 | ((bus & 0xFF) << 16) | ((device & 0x1F) << 11) | ((func & 0x07) << 8)
        | (offset & 0xFC);
    assert(r & 0x8000_0003 == 0x8000_0000 && (r >> 16) & 0xFF == bus & 0xFF && (r >> 11) & 0x1F
        == device & 0x1F && (r >> 8) & 0x07 == func & 0x07 && r & 0xFC == offset & 0xFC) by (bit_vector)
        requires
            r == 0x8000_0000u32 | ((bus & 0xFF) << 16) | ((device & 0x1F) << 11) | ((func & 0x07)
                << 8) | (offset & 0xFC),
    ;
    r
}

/// Whether the first register of a slot names a device: an empty slot reads
/// as all zeros or all ones.
pub open spec fn is_present(id: u32) -> bool {
    id != 0 && id != 0xFFFF_FFFF
}

/// Whether the first register of a slot names a device.
pub fn device_present(id: u32) -> (r: bool)
    ensures
        r == is_present(id),
{
    id != 0 && id != 0xFFFF_FFFF
}

/// A number in upper-case hexadecimal behind the prefix `0x`.
pub open spec fn prefixed_hex(n: u32) -> Seq<char> {
    "0x"@ + upper_hex(n as nat)
}

/// The two lines that describe one device: where it sits, then what it is.
pub open spec fn device_text(d: DeviceReading) -> Seq<char> {
    let class_code = d.class >> 8;
    "PCI device at bus: "@ + decimal(d.bus as nat) + ", device: "@ + decimal(d.device as nat)
        + "\ndevID="@ + prefixed_hex(d.id >> 8) + ", vendorID="@ + prefixed_hex(d.id & 0xFF)
        + ", class code="@ + prefixed_hex(class_code >> 16) + ", sub code="@ + prefixed_hex(
        (class_code >> 8) & 0xFF,
    ) + ", irq="@ + prefixed_hex(d.irq & 0xF) + "\n"@
}

/// The report on a scan: the lines of every slot that holds a device, in the
/// order of the scan.
pub open spec fn report_text(devices: Seq<DeviceReading>) -> Seq<char>
    decreases devices.len(),
{
    if devices.len() == 0 {
        Seq::empty()
    } else if is_present(devices.last().id) {
        report_text(devices.drop_last()) + device_text(devices.last())
    } else {
        report_text(devices.drop_last())
    }
}

/// Appends `n` in hexadecimal behind the prefix `0x`.
fn push_prefixed_hex(out: &mut String, n: u32)
    ensures
        final(out)@ == old(out)@ + prefixed_hex(n),
{
    out.append("0x");
    push_upper_hex(out, n as u64);
}

/// Appends the two lines that describe one device.
fn push_device(out: &mut String, d: &DeviceReading)
    ensures
        final(out)@ == old(out)@ + device_text(*d),
{
    let class_code = d.class >> 8;
    out.append("PCI device at bus: ");
    push_decimal(out, d.bus as u64);
    out.append(", device: ");
    push_decimal(out, d.device as u64);
    out.append("\ndevID=");
    push_prefixed_hex(out, d.id >> 8);
    out.append(", vendorID=");
    push_prefixed_hex(out, d.id & 0xFF);
    out.append(", class code=");
    push_prefixed_hex(out, class_code >> 16);
    out.append(", sub code=");
    push_prefixed_hex(out, (class_code >> 8) & 0xFF);
    out.append(", irq=");
    push_prefixed_hex(out, d.irq & 0xF);
    out.append("\n");
}

/// The report on what a scan has read.
pub fn busScan_r(devices: &Vec<DeviceReading>) -> (r: String)
    ensures
        r@ == report_text(devices@),
{
    let mut full = String::new();
    let mut at: usize = 0;
    while at < devices.len()
        invariant
            at <= devices@.len(),
            full@ == report_text(devices@.take(at as int)),
        decreases devices@.len() - at,
    {
        let ghost upto = devices@.take(at + 1);
        assert(upto.drop_last() =~= devices@.take(at as int));
        if device_present(devices[at].id) {
            push_device(&mut full, &devices[at]);
        }
        at = at + 1;
    }
    assert(devices@.take(at as int) =~= devices@);
    full
}

} // verus!
