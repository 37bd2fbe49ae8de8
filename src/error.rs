use vstd::prelude::*;

verus! {

/// Everything that can go wrong while talking to a sensor.
#[derive(Debug, Clone, PartialEq, Eq)]
pub enum SensorError {
    /// The Bluetooth transport reported a failure.
    BluetoothError,
    /// No Bluetooth adapter was available to create a sensor with.
    CreationError,
    /// No peripheral with the given address was found.
    CannotFindAddress(String),
    /// No peripheral advertised a sensor name.
    CannotFindAddressByName,
    /// A characteristic the operation needs is missing on the peripheral.
    CannotFindCharacteristics,
    /// A fixed-layout packet was too short or did not decode.
    ByteReadError,
    /// A peripheral address string could not be parsed.
    BluetoothAddressParseError(String),
    /// The history log did not follow the paging protocol.
    ProtocolError,
}

} // verus!
