//! The recognized data objects of a telegram, their last-wins fold into a set
//! of measurements, and the outbound messages that a set of measurements yields.

use vstd::prelude::*;

verus! {

/// The number of recognized tags.
pub const TAG_COUNT: usize = 21;

/// A recognized kind of data object, one per published metric.
#[derive(Clone, Copy, PartialEq, Eq, Structural, Debug)]
pub enum Tag {
    PowerDelivered,
    PowerReceived,
    EnergyDeliveredTariff1,
    EnergyDeliveredTariff2,
    EnergyReceivedTariff1,
    EnergyReceivedTariff2,
    PowerFailures,
    LongPowerFailures,
    VoltageL1,
    VoltageL2,
    VoltageL3,
    CurrentL1,
    CurrentL2,
    CurrentL3,
    PowerDeliveredL1,
    PowerDeliveredL2,
    PowerDeliveredL3,
    PowerReceivedL1,
    PowerReceivedL2,
    PowerReceivedL3,
    GasVolume,
}

/// The position of a tag in the fixed order of all tags.
pub open spec fn tag_index(t: Tag) -> int {
    match t {
        Tag::PowerDelivered => 0,
        Tag::PowerReceived => 1,
        Tag::EnergyDeliveredTariff1 => 2,
        Tag::EnergyDeliveredTariff2 => 3,
        Tag::EnergyReceivedTariff1 => 4,
        Tag::EnergyReceivedTariff2 => 5,
        Tag::PowerFailures => 6,
        Tag::LongPowerFailures => 7,
        Tag::VoltageL1 => 8,
        Tag::VoltageL2 => 9,
        Tag::VoltageL3 => 10,
        Tag::CurrentL1 => 11,
        Tag::CurrentL2 => 12,
        Tag::CurrentL3 => 13,
        Tag::PowerDeliveredL1 => 14,
        Tag::PowerDeliveredL2 => 15,
        Tag::PowerDeliveredL3 => 16,
        Tag::PowerReceivedL1 => 17,
        Tag::PowerReceivedL2 => 18,
        Tag::PowerReceivedL3 => 19,
        Tag::GasVolume => 20,
    }
}

/// The tag at a position of the fixed order.
pub open spec fn tag_at(i: int) -> Tag {
    if i == 0 {
        Tag::PowerDelivered
    } else if i == 1 {
        Tag::PowerReceived
    } else if i == 2 {
        Tag::EnergyDeliveredTariff1
    } else if i == 3 {
        Tag::EnergyDeliveredTariff2
    } else if i == 4 {
        Tag::EnergyReceivedTariff1
    } else if i == 5 {
        Tag::EnergyReceivedTariff2
    } else if i == 6 {
        Tag::PowerFailures
    } else if i == 7 {
        Tag::LongPowerFailures
    } else if i == 8 {
        Tag::VoltageL1
    } else if i == 9 {
        Tag::VoltageL2
    } else if i == 10 {
        Tag::VoltageL3
    } else if i == 11 {
        Tag::CurrentL1
    } else if i == 12 {
        Tag::CurrentL2
    } else if i == 13 {
        Tag::CurrentL3
    } else if i == 14 {
        Tag::PowerDeliveredL1
    } else if i == 15 {
        Tag::PowerDeliveredL2
    } else if i == 16 {
        Tag::PowerDeliveredL3
    } else if i == 17 {
        Tag::PowerReceivedL1
    } else if i == 18 {
        Tag::PowerReceivedL2
    } else if i == 19 {
        Tag::PowerReceivedL3
    } else {
        Tag::GasVolume
    }
}

/// The canonical metric name of a tag, the last part of its topic.
pub open spec fn tag_name(t: Tag) -> Seq<char> {
    match t {
        Tag::PowerDelivered => "power/delivered"@,
        Tag::PowerReceived => "power/received"@,
        Tag::EnergyDeliveredTariff1 => "energy/delivered/tariff1"@,
        Tag::EnergyDeliveredTariff2 => "energy/delivered/tariff2"@,
        Tag::EnergyReceivedTariff1 => "energy/received/tariff1"@,
        Tag::EnergyReceivedTariff2 => "energy/received/tariff2"@,
        Tag::PowerFailures => "power/failures"@,
        Tag::LongPowerFailures => "power/failures/long"@,
        Tag::VoltageL1 => "voltage/l1"@,
        Tag::VoltageL2 => "voltage/l2"@,
        Tag::VoltageL3 => "voltage/l3"@,
        Tag::CurrentL1 => "current/l1"@,
        Tag::CurrentL2 => "current/l2"@,
        Tag::CurrentL3 => "current/l3"@,
        Tag::PowerDeliveredL1 => "power/delivered/l1"@,
        Tag::PowerDeliveredL2 => "power/delivered/l2"@,
        Tag::PowerDeliveredL3 => "power/delivered/l3"@,
        Tag::PowerReceivedL1 => "power/received/l1"@,
        Tag::PowerReceivedL2 => "power/received/l2"@,
        Tag::PowerReceivedL3 => "power/received/l3"@,
        Tag::GasVolume => "gas/volume"@,
    }
}

impl Tag {
    pub fn index(self) -> (r: usize)
        ensures
            r as int == tag_index(self),
            r < TAG_COUNT,
    {
        match self {
            Tag::PowerDelivered => 0,
            Tag::PowerReceived => 1,
            Tag::EnergyDeliveredTariff1 => 2,
            Tag::EnergyDeliveredTariff2 => 3,
            Tag::EnergyReceivedTariff1 => 4,
            Tag::EnergyReceivedTariff2 => 5,
            Tag::PowerFailures => 6,
            Tag::LongPowerFailures => 7,
            Tag::VoltageL1 => 8,
            Tag::VoltageL2 => 9,
            Tag::VoltageL3 => 10,
            Tag::CurrentL1 => 11,
            Tag::CurrentL2 => 12,
            Tag::CurrentL3 => 13,
            Tag::PowerDeliveredL1 => 14,
            Tag::PowerDeliveredL2 => 15,
            Tag::PowerDeliveredL3 => 16,
            Tag::PowerReceivedL1 => 17,
            Tag::PowerReceivedL2 => 18,
            Tag::PowerReceivedL3 => 19,
            Tag::GasVolume => 20,
        }
    }

    pub fn at(i: usize) -> (r: Tag)
        requires
            i < TAG_COUNT,
        ensures
            r == tag_at(i as int),
    {
        match i {
            0 => Tag::PowerDelivered,
            1 => Tag::PowerReceived,
            2 => Tag::EnergyDeliveredTariff1,
            3 => Tag::EnergyDeliveredTariff2,
            4 => Tag::EnergyReceivedTariff1,
            5 => Tag::EnergyReceivedTariff2,
            6 => Tag::PowerFailures,
            7 => Tag::LongPowerFailures,
            8 => Tag::VoltageL1,
            9 => Tag::VoltageL2,
            10 => Tag::VoltageL3,
            11 => Tag::CurrentL1,
            12 => Tag::CurrentL2,
            13 => Tag::CurrentL3,
            14 => Tag::PowerDeliveredL1,
            15 => Tag::PowerDeliveredL2,
            16 => Tag::PowerDeliveredL3,
            17 => Tag::PowerReceivedL1,
            18 => Tag::PowerReceivedL2,
            19 => Tag::PowerReceivedL3,
            _ => Tag::GasVolume,
        }
    }

    /// The canonical metric name of this tag.
    pub fn name(self) -> (r: &'static str)
        ensures
            r@ == tag_name(self),
    {
        match self {
            Tag::PowerDelivered => "power/delivered",
            Tag::PowerReceived => "power/received",
            Tag::EnergyDeliveredTariff1 => "energy/delivered/tariff1",
            Tag::EnergyDeliveredTariff2 => "energy/delivered/tariff2",
            Tag::EnergyReceivedTariff1 => "energy/received/tariff1",
            Tag::EnergyReceivedTariff2 => "energy/received/tariff2",
            Tag::PowerFailures => "power/failures",
            Tag::LongPowerFailures => "power/failures/long",
            Tag::VoltageL1 => "voltage/l1",
            Tag::VoltageL2 => "voltage/l2",
            Tag::VoltageL3 => "voltage/l3",
            Tag::CurrentL1 => "current/l1",
            Tag::CurrentL2 => "current/l2",
            Tag::CurrentL3 => "current/l3",
            Tag::PowerDeliveredL1 => "power/delivered/l1",
            Tag::PowerDeliveredL2 => "power/delivered/l2",
            Tag::PowerDeliveredL3 => "power/delivered/l3",
            Tag::PowerReceivedL1 => "power/received/l1",
            Tag::PowerReceivedL2 => "power/received/l2",
            Tag::PowerReceivedL3 => "power/received/l3",
            Tag::GasVolume => "gas/volume",
        }
    }
}

/// Positions and tags correspond one to one.
pub proof fn lemma_tag_order(t: Tag, i: int)
    ensures
        0 <= tag_index(t) < TAG_COUNT,
        tag_at(tag_index(t)) == t,
        0 <= i < TAG_COUNT ==> tag_index(tag_at(i)) == i,
{
}

} // verus!
