use vstd::prelude::*;
use crate::error::VBoxError;
use crate::pgm::MmioRegion;

verus! {

/// A pluggable device as the device manager drives it.
pub trait PdmDeviceTrait: Send {
    fn attach(&mut self, config: &str) -> Result<(), VBoxError>;
    fn detach(&mut self) -> Result<(), VBoxError>;
    fn reset(&mut self) -> Result<(), VBoxError>;
    fn power_off(&mut self) -> Result<(), VBoxError>;
    fn query_interface(&self, iid: &str) -> Option<String>;
}

/// A driver attached on top of a device.
pub trait PdmDriverTrait: Send {
    fn init(&mut self, device: &dyn PdmDeviceTrait) -> Result<(), VBoxError>;
    fn power_off(&mut self) -> Result<(), VBoxError>;
    fn reset(&mut self) -> Result<(), VBoxError>;
}

/// What a device registers with the monitor: MMIO regions and I/O port
/// ranges (first and last port), under a name.
#[derive(Debug, Clone)]
pub struct PdmDeviceHelper<H> {
    pub mmio_regions: Vec<MmioRegion<H>>,
    pub io_port_ranges: Vec<(u16, u16)>,
    pub device_name: String,
}

impl<H> PdmDeviceHelper<H> {
    /// A helper for device `name` with nothing registered.
    pub fn new(name: &str) -> (h: Self)
        ensures
            h.mmio_regions@.len() == 0,
            h.io_port_ranges@.len() == 0,
            h.device_name@ == name@,
    {
        PdmDeviceHelper { mmio_regions: Vec::new(), io_port_ranges: Vec::new(), device_name: name.to_owned() }
    }

    /// Registers an MMIO region after those already registered.
    pub fn register_mmio(&mut self, region: MmioRegion<H>)
        ensures
            final(self).mmio_regions@ == old(self).mmio_regions@.push(region),
            final(self).io_port_ranges@ == old(self).io_port_ranges@,
            final(self).device_name == old(self).device_name,
    {
        self.mmio_regions.push(region);
    }

    /// Registers the port range `port_start ..= port_end`.
    pub fn register_io_port(&mut self, port_start: u16, port_end: u16)
        ensures
            final(self).io_port_ranges@ == old(self).io_port_ranges@.push((port_start, port_end)),
            final(self).mmio_regions@ == old(self).mmio_regions@,
            final(self).device_name == old(self).device_name,
    {
        self.io_port_ranges.push((port_start, port_end));
    }
}

impl<H: Send> PdmDeviceTrait for PdmDeviceHelper<H> {
    /// Attaching records the configuration in the name, as `name:config`.
    fn attach(&mut self, config: &str) -> (r: Result<(), VBoxError>)
        ensures
            r is Ok,
            final(self).device_name@ == old(self).device_name@ + ":"@ + config@,
            final(self).mmio_regions@ == old(self).mmio_regions@,
            final(self).io_port_ranges@ == old(self).io_port_ranges@,
    {
        self.device_name.append(":");
        self.device_name.append(config);
        Ok(())
    }

    fn detach(&mut self) -> (r: Result<(), VBoxError>)
        ensures
            r is Ok,
            final(self).device_name == old(self).device_name,
            final(self).mmio_regions@ == old(self).mmio_regions@,
            final(self).io_port_ranges@ == old(self).io_port_ranges@,
    {
        Ok(())
    }

    fn reset(&mut self) -> (r: Result<(), VBoxError>)
        ensures
            r is Ok,
            final(self).device_name == old(self).device_name,
            final(self).mmio_regions@ == old(self).mmio_regions@,
            final(self).io_port_ranges@ == old(self).io_port_ranges@,
    {
        Ok(())
    }

    fn power_off(&mut self) -> (r: Result<(), VBoxError>)
        ensures
            r is Ok,
            final(self).device_name == old(self).device_name,
            final(self).mmio_regions@ == old(self).mmio_regions@,
            final(self).io_port_ranges@ == old(self).io_port_ranges@,
    {
        Ok(())
    }

    fn query_interface(&self, _iid: &str) -> (r: Option<String>)
        ensures
            r is None,
    {
        None
    }
}

/// The device manager: created devices, drivers and the helpers of the
/// devices it created.
pub struct PdmState<H> {
    pub device_list: Vec<Box<dyn PdmDeviceTrait>>,
    pub driver_list: Vec<Box<dyn PdmDriverTrait>>,
    pub device_helpers: Vec<PdmDeviceHelper<H>>,
}

/// Initialises the device manager with nothing registered.
pub fn PDMR3Init<H>() -> (r: Result<PdmState<H>, VBoxError>)
    ensures
        r matches Ok(s) && s.device_list@.len() == 0 && s.driver_list@.len() == 0 && s.device_helpers@.len() == 0,
{
    Ok(PdmState { device_list: Vec::new(), driver_list: Vec::new(), device_helpers: Vec::new() })
}

/// Registers a device type by name; only logged, so the state is unchanged.
pub fn PDMR3RegisterDevice<H>(state: &mut PdmState<H>, name: &str) -> (r: Result<(), VBoxError>)
    ensures
        r is Ok,
        final(state).device_list@ == old(state).device_list@,
        final(state).driver_list@ == old(state).driver_list@,
        final(state).device_helpers@ == old(state).device_helpers@,
{
    Ok(())
}

/// Creates device `name`: its helper is recorded, and a fresh helper is
/// handed out as the device.
pub fn PDMR3CreateDevice<H: Send + 'static>(state: &mut PdmState<H>, name: &str) -> (r: Result<Box<dyn PdmDeviceTrait>, VBoxError>)
    ensures
        r is Ok,
        final(state).device_helpers@.len() == old(state).device_helpers@.len() + 1,
        forall|i: int| 0 <= i < old(state).device_helpers@.len() ==> #[trigger] final(state).device_helpers@[i] == old(state).device_helpers@[i],
        final(state).device_helpers@.last().device_name@ == name@,
        final(state).device_helpers@.last().mmio_regions@.len() == 0,
        final(state).device_helpers@.last().io_port_ranges@.len() == 0,
        final(state).device_list@ == old(state).device_list@,
        final(state).driver_list@ == old(state).driver_list@,
{
    let helper = PdmDeviceHelper::<H>::new(name);
    state.device_helpers.push(helper);
    let device = PdmDeviceHelper::<H>::new(name);
    Ok(Box::new(device))
}

} // verus!
