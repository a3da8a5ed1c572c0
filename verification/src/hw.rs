//! Hardware operations.
//!
//! The drivers decide; a platform layer carries out. A driver hands back the
//! operations to perform, in order, as a list of [`Op`]s.
use crate::chip::Interrupt;
use vstd::prelude::*;

verus! {

/// A call of the TI driver library.
#[derive(Clone, Copy, Debug, PartialEq, Eq, Structural)]
pub enum Call {
    /// `AONEventMcuWakeUpSet`
    AonEventMcuWakeUpSet { wake_up: u32, event: u32 },
    /// `AONRTCChannelDisable`
    AonRtcChannelDisable { channel: u32 },
    /// `AONRTCChannelEnable`
    AonRtcChannelEnable { channel: u32 },
    /// `AONRTCCombinedEventConfig`
    AonRtcCombinedEventConfig { channels: u32 },
    /// `AONRTCCompareValueSet`
    AonRtcCompareValueSet { channel: u32, value: u32 },
    /// `AONRTCDisable`
    AonRtcDisable,
    /// `AONRTCEnable`
    AonRtcEnable,
    /// `AONRTCEventClear`
    AonRtcEventClear { channel: u32 },
    /// `AONWUCAuxImageValid`
    AonWucAuxImageValid,
    /// `AUXWUCClockEnable`
    AuxWucClockEnable { clocks: u32 },
    /// `AUXWUCFreezeDisable`
    AuxWucFreezeDisable,
    /// `AUXWUCPowerCtrl`
    AuxWucPowerCtrl { mode: u32 },
    /// `IntMasterEnable`
    IntMasterEnable,
    /// `IOCIOPortPullSet`
    IocIoPortPullSet { pin: u32, pull: u32 },
    /// `IOCPinTypeGpioInput`
    IocPinTypeGpioInput { pin: u32 },
    /// `IOCPinTypeGpioOutput`
    IocPinTypeGpioOutput { pin: u32 },
    /// `IOCPinTypeUart`
    IocPinTypeUart { base: u32, rx: u32, tx: u32, cts: u32, rts: u32 },
    /// `PRCMPowerDomainOff`
    PrcmPowerDomainOff { domains: u32 },
    /// `PRCMPowerDomainOn`
    PrcmPowerDomainOn { domains: u32 },
    /// `SysCtrlAonSync`
    SysCtrlAonSync,
    /// `TimerDisable`
    TimerDisable { base: u32, timer: u32 },
    /// `TimerEnable`
    TimerEnable { base: u32, timer: u32 },
    /// `TimerMatchSet`
    TimerMatchSet { base: u32, timer: u32, value: u32 },
    /// `UARTConfigSetExpClk`
    UartConfigSetExpClk { base: u32, clock: u32, baudrate: u32, config: u32 },
    /// `UARTDisable`
    UartDisable { base: u32 },
    /// `UARTEnable`
    UartEnable { base: u32 },
    /// `UARTFIFOEnable`
    UartFifoEnable { base: u32 },
    /// `UARTHwFlowControlDisable`
    UartHwFlowControlDisable { base: u32 },
    /// `UARTHwFlowControlEnable`
    UartHwFlowControlEnable { base: u32 },
    /// `UARTIntDisable`
    UartIntDisable { base: u32, flags: u32 },
    /// `UARTIntEnable`
    UartIntEnable { base: u32, flags: u32 },
    /// `UARTRxErrorClear`
    UartRxErrorClear { base: u32 },
    /// `uDMAChannelControlSet`
    UdmaChannelControlSet { base: u32, index: u32, control: u32 },
    /// `uDMAChannelDisable`
    UdmaChannelDisable { base: u32, channel: u32 },
    /// `uDMAChannelEnable`
    UdmaChannelEnable { base: u32, channel: u32 },
    /// `uDMAChannelTransferSet`
    UdmaChannelTransferSet { base: u32, index: u32, mode: u32, src: u32, dest: u32, len: u32 },
}

/// A task that waits for a driver.
#[derive(Clone, Copy, Debug, PartialEq, Eq, Structural)]
pub enum Task {
    Gpt,
    Rtc,
    UartRx,
    UartTx,
}

/// The kinds of request that the Sensor Controller takes.
#[derive(Clone, Copy, Debug, PartialEq, Eq, Structural)]
pub enum TaskRequest {
    /// Start the tasks.
    Initialize,
    /// Execute the tasks once, at once.
    Execute,
    /// Stop the tasks.
    Terminate,
}

/// One step that the platform layer performs for a driver.
#[derive(Clone, Copy, Debug, PartialEq, Eq, Structural)]
pub enum Op {
    /// Store `value` in the register at `addr`.
    Write { addr: u32, value: u32 },
    /// Read the register at `addr` and store [`modified`] of what was read.
    Modify { addr: u32, clear: u32, set: u32 },
    /// Read the register at `addr` for the sake of the access alone.
    Read { addr: u32 },
    /// Read the register at `addr` until one of the bits of `mask` is set.
    WaitSet { addr: u32, mask: u32 },
    /// Read the register at `addr` until no bit of `mask` is set.
    WaitClear { addr: u32, mask: u32 },
    /// Ask for the status of the power domains until they are on.
    WaitPowerOn { domains: u32 },
    /// Keep the compiler from moving memory accesses across this point.
    Fence,
    /// Call the TI driver library.
    Call(Call),
    /// Clear the pending state of the interrupt line.
    Unpend(Interrupt),
    /// Fence, then let the interrupt line through.
    Enable(Interrupt),
    /// Let the interrupt line through.
    Unmask(Interrupt),
    /// Hold the interrupt line back.
    Mask(Interrupt),
    /// Wake the task that waits.
    Wake(Task),
    /// Copy the whole AUX RAM image, `words` words of two bytes each, to the start
    /// of the AUX RAM.
    UploadAuxRamImage { words: usize },
    /// Copy `len` bytes of the AUX RAM image, from byte `offset` on, to the
    /// same place in the AUX RAM.
    CopyToAuxRam { offset: u32, len: u32 },
    /// Run the hardware initialization of the project's tasks.
    InitTaskResources,
    /// Store a bit vector of task numbers as a request to the Sensor Controller.
    RequestTasks { request: TaskRequest, tasks: u16 },
}

/// Whether bit `i` of `word` is set.
pub open spec fn bit(word: u32, i: u32) -> bool {
    word & (1u32 << i) != 0
}

/// What a read-modify-write stores: the bits of `clear` are cleared first, the
/// bits of `set` are set after that, and every other bit is kept.
pub fn modified(read: u32, clear: u32, set: u32) -> (r: u32)
    ensures
        r == (read & !clear) | set,
        forall|i: u32| i < 32 ==> #[trigger] bit(r, i) == (bit(set, i) || (bit(read, i) && !bit(
            clear,
            i,
        ))),
{
    let r: u32 = (read & !clear) | set;
    proof {
        assert forall|i: u32| i < 32 implies #[trigger] bit(r, i) == (bit(set, i) || (bit(read, i)
            && !bit(clear, i))) by {
            assert((r & (1u32 << i) != 0) == (set & (1u32 << i) != 0 || (read & (1u32 << i) != 0
                && !(clear & (1u32 << i) != 0)))) by (bit_vector)
                requires
                    r == (read & !clear) | set,
                    i < 32,
            ;
        }
    }
    r
}

/// What the register at `addr` holds after one operation, if it held `v` before
/// and keeps what is stored in it. Calls of the driver library do not count.
pub open spec fn stored_by(op: Op, addr: u32, v: u32) -> u32 {
    match op {
        Op::Write { addr: a, value } => if a == addr {
            value
        } else {
            v
        },
        Op::Modify { addr: a, clear, set } => if a == addr {
            (v & !clear) | set
        } else {
            v
        },
        _ => v,
    }
}

/// What the register at `addr` holds after the operations, if it held `v` before
/// and keeps what is stored in it. Calls of the driver library do not count.
pub open spec fn stored(ops: Seq<Op>, addr: u32, v: u32) -> u32
    decreases ops.len(),
{
    if ops.len() == 0 {
        v
    } else {
        stored_by(ops.last(), addr, stored(ops.drop_last(), addr, v))
    }
}

/// Running two lists one after the other is running their concatenation.
pub proof fn stored_concat(a: Seq<Op>, b: Seq<Op>, addr: u32, v: u32)
    ensures
        stored(a + b, addr, v) == stored(b, addr, stored(a, addr, v)),
    decreases b.len(),
{
    if b.len() == 0 {
        assert(a + b =~= a);
    } else {
        assert((a + b).drop_last() =~= a + b.drop_last());
        stored_concat(a, b.drop_last(), addr, v);
    }
}

/// Appends the operations of `more` to `ops`.
pub fn append(ops: &mut Vec<Op>, more: Vec<Op>)
    ensures
        final(ops)@ == old(ops)@ + more@,
{
    let mut rest: Vec<Op> = more;
    ops.append(&mut rest);
}

} // verus!
