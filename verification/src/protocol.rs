//! What the mesh agrees on: its service identifiers and what reaches the data handler.
use crate::address::Address;
use vstd::prelude::*;
use vstd::string::*;

verus! {

/// The UUID of the mesh service, the same on every platform.
pub const SERVICE_UUID: u128 = 0xF47B5E2D_4A9E_4C5A_9B3F_8E1D2C3A4B5C;

/// The UUID of the characteristic that carries mesh traffic.
pub const CHARACTERISTIC_UUID: u128 = 0xA1B2C3D4_E5F6_4A5B_8C9D_0E1F2A3B4C5D;

/// One call of the data handler: the bytes and the text that says where they come from.
#[derive(Debug, PartialEq, Eq)]
pub struct Delivery {
    pub data: Vec<u8>,
    pub source: String,
}

/// The mathematical content of a [`Delivery`].
pub struct DeliveryView {
    pub data: Seq<u8>,
    pub source: Seq<char>,
}

impl View for Delivery {
    type V = DeliveryView;

    open spec fn view(&self) -> DeliveryView {
        DeliveryView { data: self.data@, source: self.source@ }
    }
}

/// Bytes received from a device, reported under the device's address.
pub open spec fn received(data: Seq<u8>, from: Address) -> DeliveryView {
    DeliveryView { data, source: from.text() }
}

/// The notice that a mesh device appeared.
pub open spec fn discovered(device: Address) -> DeliveryView {
    DeliveryView { data: seq![0xFEu8, 0xFEu8], source: "DISCOVERED:"@ + device.text() }
}

/// The notice that a device disappeared.
pub open spec fn removed(device: Address) -> DeliveryView {
    DeliveryView { data: seq![0xFDu8, 0xFDu8], source: "REMOVED:"@ + device.text() }
}

impl Delivery {
    /// Reports `data` as received from the device at `from`.
    pub fn received(data: Vec<u8>, from: &Address) -> (delivery: Delivery)
        ensures
            delivery@ == received(data@, *from),
            delivery.data@ == data@,
            delivery.source@ == from.text(),
    {
        Delivery { data, source: from.to_text() }
    }

    /// Reports that the mesh device at `device` appeared.
    pub fn discovered(device: &Address) -> (delivery: Delivery)
        ensures
            delivery@ == discovered(*device),
            delivery.data@ == seq![0xFEu8, 0xFE],
            delivery.source@ == "DISCOVERED:"@ + device.text(),
    {
        let mut source = "DISCOVERED:".to_owned();
        let text = device.to_text();
        source.append(text.as_str());
        let data: Vec<u8> = vec![0xFEu8, 0xFEu8];
        assert(data@ =~= seq![0xFEu8, 0xFEu8]);
        Delivery { data, source }
    }

    /// Reports that the device at `device` disappeared.
    pub fn removed(device: &Address) -> (delivery: Delivery)
        ensures
            delivery@ == removed(*device),
            delivery.data@ == seq![0xFDu8, 0xFD],
            delivery.source@ == "REMOVED:"@ + device.text(),
    {
        let mut source = "REMOVED:".to_owned();
        let text = device.to_text();
        source.append(text.as_str());
        let data: Vec<u8> = vec![0xFDu8, 0xFDu8];
        assert(data@ =~= seq![0xFDu8, 0xFDu8]);
        Delivery { data, source }
    }
}

/// What is delivered is what the handler is called with.
pub proof fn delivery_content_is_its_fields(delivery: Delivery)
    ensures
        delivery@.data == delivery.data@,
        delivery@.source == delivery.source@,
{
}

/// Received bytes are reported as they came, all of them and in order, under the text of the
/// sender's address alone.
pub proof fn received_bytes_are_reported_verbatim(data: Seq<u8>, from: Address)
    ensures
        received(data, from).data == data,
        received(data, from).data.len() == data.len(),
        forall|i: int| 0 <= i < data.len() ==> received(data, from).data[i] == data[i],
        received(data, from).source == from.text(),
{
}

/// A notice consists of its two marker bytes and of its tag in front of the text of the
/// device's address.
pub proof fn notices_are_marked_and_tagged(device: Address)
    ensures
        discovered(device).data.len() == 2,
        discovered(device).data[0] == 0xFE && discovered(device).data[1] == 0xFE,
        discovered(device).source == "DISCOVERED:"@ + device.text(),
        removed(device).data.len() == 2,
        removed(device).data[0] == 0xFD && removed(device).data[1] == 0xFD,
        removed(device).source == "REMOVED:"@ + device.text(),
{
}

/// The identifiers of the mesh are those that every platform uses, and they differ.
pub proof fn mesh_identifiers()
    ensures
        SERVICE_UUID == 0xF47B5E2D4A9E4C5A9B3F8E1D2C3A4B5Cu128,
        CHARACTERISTIC_UUID == 0xA1B2C3D4E5F64A5B8C9D0E1F2A3B4C5Du128,
        SERVICE_UUID != CHARACTERISTIC_UUID,
{
}

/// The source text alone tells the three kinds of delivery apart, whatever bytes were received.
pub proof fn delivery_kinds_are_distinct(data: Seq<u8>, a: Address, b: Address, c: Address)
    ensures
        received(data, a).source != discovered(b).source,
        received(data, a).source != removed(c).source,
        discovered(b).source != removed(c).source,
{
    reveal_strlit("DISCOVERED:");
    reveal_strlit("REMOVED:");
    crate::address::address_text_shape(a);
    crate::address::address_text_shape(b);
    crate::address::address_text_shape(c);
    assert(discovered(b).source.len() == 28);
    assert(removed(c).source.len() == 25);
}

/// Within each kind of delivery the source text identifies the device.
pub proof fn delivery_source_identifies_device(
    first: Seq<u8>,
    second: Seq<u8>,
    a: Address,
    b: Address,
)
    ensures
        received(first, a).source == received(second, b).source ==> a == b,
        discovered(a).source == discovered(b).source ==> a == b,
        removed(a).source == removed(b).source ==> a == b,
{
    let x = a.text();
    let y = b.text();
    if "DISCOVERED:"@ + x == "DISCOVERED:"@ + y {
        let n = "DISCOVERED:"@.len() as int;
        assert(x =~= ("DISCOVERED:"@ + x).skip(n));
        assert(y =~= ("DISCOVERED:"@ + y).skip(n));
    }
    if "REMOVED:"@ + x == "REMOVED:"@ + y {
        let n = "REMOVED:"@.len() as int;
        assert(x =~= ("REMOVED:"@ + x).skip(n));
        assert(y =~= ("REMOVED:"@ + y).skip(n));
    }
    if x == y {
        crate::address::address_text_is_injective(a, b);
    }
}

} // verus!
