//! Virtual tracked devices: a registry of named devices, each standing for
//! one action space of the runtime, looked up by name when a pose update
//! arrives. The runtime's space objects stay in the unverified shell; here
//! each is carried as its plain handle.

use vstd::prelude::*;

verus! {

/// Why a device operation was refused.
#[derive(Clone, Copy, Debug, PartialEq, Eq, Structural)]
pub enum DeviceUpdateError {
    /// No registered device carries the requested name.
    HandleInvalid,
}

/// One emulated tracked device: its name and the handle of the action space
/// its poses are reported in.
#[derive(Clone, Debug)]
pub struct VirtualDevice {
    pub name: String,
    pub space: u64,
}

impl VirtualDevice {
    /// Registers a device under a name for one action space.
    pub fn new(name: &str, space: u64) -> (r: Self)
        ensures
            r.name@ == name@,
            r.space == space,
    {
        VirtualDevice { name: String::from_str(name), space }
    }
}

/// The set of registered virtual devices, in registration order.
#[derive(Clone, Debug)]
pub struct DeviceManager {
    pub devices: Vec<VirtualDevice>,
}

impl DeviceManager {
    /// Starts with no devices registered.
    pub fn new() -> (r: Self)
        ensures
            r.devices@.len() == 0,
    {
        DeviceManager { devices: Vec::new() }
    }

    /// Registers one more device.
    pub fn add_device(&mut self, device: VirtualDevice)
        ensures
            final(self).devices@ == old(self).devices@.push(device),
    {
        self.devices.push(device);
    }

    /// Finds the device a pose update is addressed to: the first registered
    /// device carrying the name. Fails exactly when no device does.
    pub fn update_pose(&self, device_name: &str) -> (r: Result<usize, DeviceUpdateError>)
        ensures
            r matches Ok(i) ==> i < self.devices@.len() && self.devices@[i as int].name@
                == device_name@ && forall|j: int|
                0 <= j < i ==> self.devices@[j].name@ != device_name@,
            r is Err <==> forall|j: int|
                0 <= j < self.devices@.len() ==> self.devices@[j].name@ != device_name@,
            r matches Err(e) ==> e == DeviceUpdateError::HandleInvalid,
    {
        let target = String::from_str(device_name);
        let mut j: usize = 0;
        while j < self.devices.len()
            invariant
                j <= self.devices@.len(),
                target@ == device_name@,
                forall|k: int| 0 <= k < j ==> self.devices@[k].name@ != device_name@,
            decreases self.devices@.len() - j,
        {
            if self.devices[j].name == target {
                return Ok(j);
            }
            j = j + 1;
        }
        Err(DeviceUpdateError::HandleInvalid)
    }
}

} // verus!
