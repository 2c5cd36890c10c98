//! How a client is set up.

use super::MCUmgrClient;
use crate::error::MCUmgrClientError;
use crate::usb::UsbSerialError;
use vstd::prelude::*;

verus! {

/// A client uses the connection that it is given, with the default frame size of Zephyr and
/// without configured retries. A port that cannot be opened is reported.
pub proof fn law_client_uses_connection<T>(
    serial: T,
    client: MCUmgrClient<T>,
    opened: Result<T, String>,
    r: Result<MCUmgrClient<T>, UsbSerialError>,
)
    requires
        call_ensures(MCUmgrClient::<T>::new_from_serial, (serial,), client),
        call_ensures(MCUmgrClient::<T>::new_from_opened_serial, (opened,), r),
    ensures
        client.connection == serial,
        client.smp_frame_size == 384,
        client.retries is None,
        opened matches Ok(port) ==> {
            &&& r matches Ok(connected)
            &&& connected.connection == port
            &&& connected.smp_frame_size == 384
            &&& connected.retries is None
        },
        opened matches Err(err) ==> r is Err && r->Err_0 == UsbSerialError::SerialPortError(err),
{
}

/// The frame size is the one that was configured, and nothing else changes.
pub proof fn law_frame_size_is_configured<T>(client: &mut MCUmgrClient<T>, smp_frame_size: usize)
    requires
        call_ensures(MCUmgrClient::<T>::set_frame_size, (client, smp_frame_size), ()),
    ensures
        final(client).smp_frame_size == smp_frame_size,
        final(client).connection == old(client).connection,
        final(client).retries == old(client).retries,
{
}

/// The number of retries is the one that was configured, and nothing else changes.
pub proof fn law_retries_are_configured<T>(client: &mut MCUmgrClient<T>, retries: u8)
    requires
        call_ensures(MCUmgrClient::<T>::set_retries, (client, retries), ()),
    ensures
        final(client).retries == Some(retries),
        final(client).connection == old(client).connection,
        final(client).smp_frame_size == old(client).smp_frame_size,
{
}

/// A timeout that cannot be configured is reported.
pub proof fn law_timeout_is_configured<T>(
    client: MCUmgrClient<T>,
    configured: Result<(), String>,
    r: Result<(), MCUmgrClientError>,
)
    requires
        call_ensures(MCUmgrClient::<T>::set_timeout, (&client, configured), r),
    ensures
        configured is Ok <==> r is Ok,
        configured matches Err(err) ==> r->Err_0 == MCUmgrClientError::SetTimeoutFailed(err),
{
}

} // verus!
