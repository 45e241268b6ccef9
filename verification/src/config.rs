//! The devices that the gateway serves, as its configuration names them.
//!
//! Inputs, outputs and devices are listed under their labels. A list holds
//! each label once, in the order in which the entries are to be taken.

use vstd::prelude::*;

verus! {

/// One input or output of a device.
#[derive(Debug)]
pub struct IOConfig {
    /// Index of the input or output on its device.
    pub id: u8,
    /// What is attached to it, where the configuration says so.
    pub io_type: Option<String>,
}

/// One device on the bus.
#[derive(Debug)]
pub struct DeviceConfig {
    /// Address of the device on the bus.
    pub addr: u8,
    /// The outputs of the device, each under its label.
    pub outputs: Vec<(String, IOConfig)>,
    /// The inputs of the device, each under its label.
    pub inputs: Vec<(String, IOConfig)>,
}

/// All the devices, each under its name.
#[derive(Debug)]
pub struct Config {
    pub devices: Vec<(String, DeviceConfig)>,
}

/// No label occurs twice in a list of inputs or outputs.
pub open spec fn labels_distinct(entries: Seq<(String, IOConfig)>) -> bool {
    forall|i: int, j: int|
        0 <= i < j < entries.len() ==> (#[trigger] entries[i]).0@ != (#[trigger] entries[j]).0@
}

impl DeviceConfig {
    /// No label occurs twice among the outputs, nor among the inputs.
    pub open spec fn wf(&self) -> bool {
        &&& labels_distinct(self.outputs@)
        &&& labels_distinct(self.inputs@)
    }

    /// Tells whether no label occurs twice among the outputs, nor among the inputs.
    pub fn is_valid(&self) -> (ok: bool)
        ensures
            ok == self.wf(),
    {
        has_distinct_labels(&self.outputs) && has_distinct_labels(&self.inputs)
    }
}

impl Config {
    /// No device name occurs twice, and every device is well formed.
    pub open spec fn wf(&self) -> bool {
        &&& forall|i: int, j: int|
            0 <= i < j < self.devices@.len() ==> (#[trigger] self.devices@[i]).0@ != (
            #[trigger] self.devices@[j]).0@
        &&& forall|i: int| 0 <= i < self.devices@.len() ==> (#[trigger] self.devices@[i]).1.wf()
    }

    /// Tells whether no device name occurs twice and every device is well formed.
    pub fn is_valid(&self) -> (ok: bool)
        ensures
            ok == self.wf(),
    {
        let n: usize = self.devices.len();
        let mut j: usize = 0;
        while j < n
            invariant
                n == self.devices@.len(),
                j <= n,
                forall|a: int, b: int|
                    0 <= a < b < j ==> (#[trigger] self.devices@[a]).0@ != (
                    #[trigger] self.devices@[b]).0@,
                forall|a: int| 0 <= a < j ==> (#[trigger] self.devices@[a]).1.wf(),
            decreases n - j,
        {
            if !self.devices[j].1.is_valid() {
                return false;
            }
            let mut i: usize = 0;
            while i < j
                invariant
                    n == self.devices@.len(),
                    j < n,
                    i <= j,
                    forall|a: int|
                        0 <= a < i ==> (#[trigger] self.devices@[a]).0@ != self.devices@[j as int].0@,
                decreases j - i,
            {
                if self.devices[i].0 == self.devices[j].0 {
                    return false;
                }
                i += 1;
            }
            j += 1;
        }
        true
    }
}

/// Tells whether no label occurs twice in a list of inputs or outputs.
pub fn has_distinct_labels(entries: &Vec<(String, IOConfig)>) -> (ok: bool)
    ensures
        ok == labels_distinct(entries@),
{
    let n: usize = entries.len();
    let mut j: usize = 0;
    while j < n
        invariant
            n == entries@.len(),
            j <= n,
            forall|a: int, b: int|
                0 <= a < b < j ==> (#[trigger] entries@[a]).0@ != (#[trigger] entries@[b]).0@,
        decreases n - j,
    {
        let mut i: usize = 0;
        while i < j
            invariant
                n == entries@.len(),
                j < n,
                i <= j,
                forall|a: int| 0 <= a < i ==> (#[trigger] entries@[a]).0@ != entries@[j as int].0@,
            decreases j - i,
        {
            if entries[i].0 == entries[j].0 {
                return false;
            }
            i += 1;
        }
        j += 1;
    }
    true
}

} // verus!
