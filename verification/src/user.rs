//! Places where users of the client hook in their own logic; they do
//! nothing until a user fills them in.
use vstd::prelude::*;

use crate::broadcast::BroadcastRaw;
use crate::client::XapClient;
use crate::device::XapDevice;

verus! {

/// Storage for user data.
#[derive(Debug, Default, Clone, Copy, PartialEq, Eq, Structural)]
pub struct UserData {}

/// Runs before the client starts.
pub fn pre_init() {
}

/// Runs when the client shuts down; leaves the user data as it is.
pub fn on_close(_client: &XapClient, user_data: &mut UserData)
    ensures
        *final(user_data) == *old(user_data),
{
}

/// Runs for every new device; leaves the user data as it is.
pub fn new_device(_device: &XapDevice, user_data: &mut UserData)
    ensures
        *final(user_data) == *old(user_data),
{
}

/// Runs for every device that went away; leaves the user data as it is.
pub fn removed_device(_id: u128, user_data: &mut UserData)
    ensures
        *final(user_data) == *old(user_data),
{
}

/// Runs for every broadcast; leaves the user data as it is.
pub fn broadcast_callback(_broadcast: BroadcastRaw, _device: &XapDevice, user_data: &mut UserData)
    ensures
        *final(user_data) == *old(user_data),
{
}

/// Runs on every turn of the event loop; leaves the user data as it is.
pub fn housekeeping(_client: &XapClient, user_data: &mut UserData)
    ensures
        *final(user_data) == *old(user_data),
{
}

} // verus!
