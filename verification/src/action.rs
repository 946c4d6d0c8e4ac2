use vstd::prelude::*;

verus! {

/// One call the bring-up layer makes into a collaborator driver or the
/// processor, named after the collaborator's entry point it stands for.
/// Traces of these actions are what the sequencing contracts speak of.
#[derive(Clone, Copy, Debug, PartialEq, Eq, Structural)]
pub enum Action {
    /// Run the one-shot processor feature enabler.
    EnableCpuFeatures,
    /// serial.init: bring up the serial transport.
    SerialInit,
    /// boot.init: run the boot-environment parser.
    BootInit,
    /// irq.init: set up the platform interrupt-dispatch table.
    IrqInit,
    /// serial.callback_init: register the serial transport's interrupt callback.
    SerialCallbackInit,
    /// acpi.init: parse the ACPI tables the controller probe needs.
    AcpiInit,
    /// ioapic.init: bring up the IO-APIC that routes external interrupt lines.
    IoApicInit,
    /// xapic.init: bring up the per-core local APIC.
    XApicInit,
    /// pic.enable: bring up the legacy controller as the active family.
    PicEnable,
    /// timer.init: bring up the timer, which needs a working controller.
    TimerInit,
    /// pic.init: the legacy controller's baseline configuration.
    PicInit,
    /// pic.ack: acknowledge a serviced interrupt on the legacy controller.
    PicAck,
    /// xapic.ack: acknowledge a serviced interrupt on the local APIC.
    XApicAck,
}

} // verus!
