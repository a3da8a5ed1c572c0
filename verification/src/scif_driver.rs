//! Driver of the Sensor Controller in the AUX domain.
//!
//! The driver keeps the state that lives in main RAM. The data that the Sensor
//! Controller shares through the AUX RAM is read and written by the platform layer.
use crate::chip::Interrupt;
use crate::driverlib::{
    AUX_AIODIO0_BASE, AUX_AIODIO1_BASE, AUX_WUC_ADI_CLOCK, AUX_WUC_AIODIO0_CLOCK,
    AUX_WUC_AIODIO1_CLOCK, AUX_WUC_ANAIF_CLOCK, AUX_WUC_OSCCTRL_CLOCK, AUX_WUC_POWER_DOWN,
    AUX_WUC_SMPH_CLOCK, AUX_WUC_TDCIF_CLOCK, AUX_WUC_TIMER_CLOCK, IOC_BASE,
    IOC_IOCFG0_PORT_ID_AUX_IO, IOC_IOCFG0_PULL_CTL_DIS, IOC_IOCFG0_PULL_CTL_DWN,
    IOC_IOCFG0_PULL_CTL_UP, IOC_O_IOCFG0,
};
use crate::hw::{append, bit, stored, Call, Op, TaskRequest};
use crate::regs::{
    AON_WUC_AUXCTL_SCE_RUN_EN, AUX_AIODIO_O_GPIODIE, AUX_AIODIO_O_GPIODOUT, AUX_AIODIO_O_IOMODE,
    AUX_EVCTL_EVTOAONFLAGS, AUX_EVCTL_EVTOAONFLAGSCLR, AUX_EVCTL_SWEV0, AUX_EVCTL_SWEV1,
    AUX_EVCTL_SWEVSET, AUX_EVCTL_VECCFG0, AUX_EVCTL_VECCFG0_VEC0_EN,
    AUX_EVCTL_VECCFG0_VEC0_EV_AON_SW, AUX_EVCTL_VECCFG0_VEC0_POL, AUX_EVCTL_VECCFG0_VEC1_EN,
    AUX_EVCTL_VECCFG0_VEC1_EV_AON_RTC_CH2, AUX_EVCTL_VECCFG1, AUX_EVCTL_VECCFG1_VEC2_EV_AON_SW,
    AUX_EVCTL_VECCFG1_VEC3_EN, AUX_EVCTL_VECCFG1_VEC3_EV_AON_SW, AUX_EVCTL_VECFLAGS, AUX_SCE_CTL,
    AUX_SCE_CTL_RESET_VECTOR_1, AUX_WUC_MCUBUSCTL,
};
use vstd::prelude::*;

verus! {

/// Sensor Controller Interface function call result
#[derive(Clone, Copy, Debug, PartialEq, Eq, Structural)]
pub enum SCIFResult {
    /// Call succeeded
    Success,
    /// Not ready (previous non-blocking call is still running)
    NotReady,
    /// Illegal operation
    IllegalOperation,
}

/// Task data structure types
#[derive(Clone, Copy, Debug, PartialEq, Eq, Structural)]
pub enum SCIFTaskStructType {
    /// Task configuration data structure (Sensor Controller read-only)
    SCIFStructCfg,
    /// Task input data structure
    SCIFStructInput,
    /// Task output data structure
    SCIFStructOutput,
    /// Task state data structure
    SCIFStructState,
}

impl SCIFTaskStructType {
    /// The number of the structure within a task.
    pub open spec fn struct_number(self) -> u32 {
        match self {
            SCIFTaskStructType::SCIFStructCfg => 0,
            SCIFTaskStructType::SCIFStructInput => 1,
            SCIFTaskStructType::SCIFStructOutput => 2,
            SCIFTaskStructType::SCIFStructState => 3,
        }
    }

    /// The number of the structure within a task.
    pub fn index(self) -> (r: u32)
        ensures
            r == self.struct_number(),
            r < 4,
    {
        match self {
            SCIFTaskStructType::SCIFStructCfg => 0,
            SCIFTaskStructType::SCIFStructInput => 1,
            SCIFTaskStructType::SCIFStructOutput => 2,
            SCIFTaskStructType::SCIFStructState => 3,
        }
    }
}

/// Driver setup of one project
#[derive(Clone, Copy, Debug)]
pub struct SCIFData {
    /// AUX RAM image word array
    pub aux_ram_image: &'static [u16],
    /// Look-up table of data structure information for each task
    pub task_data_struct_info_lut: &'static [u32],
    /// Look-up table that converts from AUX I/O index to MCU IOCFG offset
    pub aux_io_index_to_mcu_iocfg_offset_lut: &'static [u8],
}

/// I/O pin mode: Output
pub const AUXIOMODE_OUTPUT: u32 = 0x0000_0000;

/// I/O pin mode: Input, active
pub const AUXIOMODE_INPUT: u32 = 0x0001_0001;

/// Task data structure buffer control: Size (in bytes)
pub const SCIF_TASK_STRUCT_CTRL_SIZE: u32 = 6;

/// The READY interrupt is implemented using INT_AON_AUX_SWEV0
pub const INT_SCIF_CTRL_READY: Interrupt = Interrupt::UART1;

/// The ALERT interrupt is implemented using INT_AON_AUX_SWEV1
pub const INT_SCIF_TASK_ALERT: Interrupt = Interrupt::AON_EVENT;

/// Bit 0 of a request: start the tasks.
pub const REQ_INITIALIZE: u32 = 0x01;

/// Bit 1 of a request: execute the tasks once.
pub const REQ_EXECUTE: u32 = 0x02;

/// Bit 2 of a request: stop the tasks.
pub const REQ_TERMINATE: u32 = 0x04;

/// State of the driver in main RAM
pub struct Scif {
    /// Setup of the project, once the driver has been initialized
    pub scif_data: Option<SCIFData>,
    /// Bit-vector indicating tasks with potentially modified input/output/state data structures
    pub bv_dirty_tasks: u16,
    /// The image that was uploaded last
    pub last_aux_ram_image: Option<&'static [u16]>,
    /// Whether the control interface takes a request
    pub ready: bool,
}

/// Start address of the AUX I/O controller that serves the AUX I/O.
pub open spec fn aiodio_base(aux_io_index: u32) -> u32 {
    if aux_io_index >= 8 {
        AUX_AIODIO1_BASE
    } else {
        AUX_AIODIO0_BASE
    }
}

/// Number of the AUX I/O within its controller.
pub open spec fn aiodio_pin(aux_io_index: u32) -> u32 {
    if aux_io_index >= 8 {
        (aux_io_index - 8) as u32
    } else {
        aux_io_index
    }
}

/// The pull setting of the MCU I/O controller: -1 is none, 0 is down, 1 is up.
pub open spec fn pull_ctl(pull_level: i32) -> u32 {
    if pull_level == -1 {
        IOC_IOCFG0_PULL_CTL_DIS
    } else if pull_level == 0 {
        IOC_IOCFG0_PULL_CTL_DWN
    } else {
        IOC_IOCFG0_PULL_CTL_UP
    }
}

/// The write that makes the AUX I/O setup effective in the MCU I/O controller.
pub open spec fn reinit_io_op(lut: Seq<u8>, aux_io_index: u32, pull_level: i32) -> Op {
    Op::Write {
        addr: (IOC_BASE + IOC_O_IOCFG0 + lut[aux_io_index as int]) as u32,
        value: IOC_IOCFG0_PORT_ID_AUX_IO | pull_ctl(pull_level),
    }
}

/// The operations that set up an AUX I/O.
pub open spec fn init_io_ops(
    lut: Seq<u8>,
    aux_io_index: u32,
    io_mode: u32,
    pull_level: i32,
    output_value: u32,
) -> Seq<Op> {
    let base = aiodio_base(aux_io_index);
    let pin = aiodio_pin(aux_io_index);
    let pin2 = (2 * pin) as u32;
    seq![
        Op::Modify {
            addr: (base + AUX_AIODIO_O_IOMODE) as u32,
            clear: 0x03u32 << pin2,
            set: io_mode << pin2,
        },
        Op::Modify {
            addr: (base + AUX_AIODIO_O_GPIODOUT) as u32,
            clear: 0x01u32 << pin,
            set: output_value << pin,
        },
        Op::Modify {
            addr: (base + AUX_AIODIO_O_GPIODIE) as u32,
            clear: 0x01u32 << pin,
            set: (io_mode >> 16) << pin,
        },
        Op::Read { addr: (base + AUX_AIODIO_O_GPIODIE) as u32 },
        reinit_io_op(lut, aux_io_index, pull_level),
    ]
}

/// Byte address of a task data structure in the AUX RAM: bits 11:0.
pub open spec fn info_addr(info: u32) -> int {
    info as int % 0x1000
}

/// Number of buffers of a task data structure: bits 19:12.
pub open spec fn info_count(info: u32) -> int {
    (info as int / 0x1000) % 0x100
}

/// Size of a task data structure in 16-bit words: bits 31:20.
pub open spec fn info_size(info: u32) -> int {
    info as int / 0x10_0000
}

/// First byte of what is copied to reset a task data structure. A structure
/// with more than one buffer has its control variables in front of it.
pub open spec fn copy_offset(info: u32) -> int {
    info_addr(info) - if info_count(info) > 1 {
        SCIF_TASK_STRUCT_CTRL_SIZE as int
    } else {
        0
    }
}

/// Number of bytes that are copied to reset a task data structure.
pub open spec fn copy_len(info: u32) -> int {
    2 * info_size(info) * info_count(info) + if info_count(info) > 1 {
        SCIF_TASK_STRUCT_CTRL_SIZE as int
    } else {
        0
    }
}

/// Whether offset and length of the copy are representable in 16 bits.
pub open spec fn resettable(info: u32) -> bool {
    0 <= copy_offset(info) && copy_len(info) <= u16::MAX
}

/// What resets the structure that the table describes by `info`; zero stands
/// for a structure that does not exist.
pub open spec fn reset_ops(info: u32) -> Seq<Op> {
    if info == 0 {
        seq![]
    } else {
        seq![Op::CopyToAuxRam { offset: copy_offset(info) as u32, len: copy_len(info) as u32 }]
    }
}

/// What resets those of the structures `0..n` of a task that are in the bit
/// vector `structs`, in ascending order.
pub open spec fn task_reset_ops(lut: Seq<u32>, task_id: u32, structs: u32, n: nat) -> Seq<Op>
    decreases n,
{
    if n == 0 {
        seq![]
    } else {
        let k = (n - 1) as nat;
        task_reset_ops(lut, task_id, structs, k) + if bit(structs, k as u32) {
            reset_ops(lut[task_id * 4 + k])
        } else {
            seq![]
        }
    }
}

/// The structures that are reset: those asked for, and the state structure always.
pub open spec fn structs_to_reset(bv_task_structs: u32) -> u32 {
    bv_task_structs | (1u32 << 3)
}

/// Whether the table describes every structure in the bit vector `structs` of a task.
pub open spec fn describes(lut: Seq<u32>, task_id: u32, structs: u32) -> bool {
    forall|n: u32|
        n < 32 && #[trigger] bit(structs, n) ==> task_id * 4 + n < lut.len() && resettable(
            lut[task_id * 4 + n],
        )
}

/// What resets the structures in the bit vector `structs` for those of the tasks `0..n`
/// that are in the bit vector `task_ids`, in ascending order.
pub open spec fn reset_all_ops(lut: Seq<u32>, task_ids: u32, structs: u32, n: nat) -> Seq<Op>
    decreases n,
{
    if n == 0 {
        seq![]
    } else {
        let t = (n - 1) as nat;
        reset_all_ops(lut, task_ids, structs, t) + if bit(task_ids, t as u32) {
            task_reset_ops(lut, t as u32, structs, 32)
        } else {
            seq![]
        }
    }
}

/// Whether the table describes every structure in the bit vector `structs` for each of the
/// tasks in the bit vector `task_ids`.
pub open spec fn describes_all(lut: Seq<u32>, task_ids: u32, structs: u32) -> bool {
    forall|t: u32| t < 32 && #[trigger] bit(task_ids, t) ==> describes(lut, t, structs)
}

/// Whether a request would start a task that is active or dirty.
pub open spec fn starts_busy_task(
    bv_task_ids: u32,
    bv_task_req: u32,
    active: u16,
    dirty: u16,
) -> bool {
    bv_task_req & REQ_INITIALIZE != 0 && (active | dirty) & (bv_task_ids as u16) != 0
}

/// The bit vector that goes with one kind of request.
pub open spec fn requested(bv_task_ids: u32, bv_task_req: u32, kind: u32) -> u16 {
    if bv_task_req & kind != 0 {
        bv_task_ids as u16
    } else {
        0
    }
}

/// The operations that hand a request over to the Sensor Controller.
pub open spec fn request_ops(bv_task_ids: u32, bv_task_req: u32) -> Seq<Op> {
    seq![
        Op::RequestTasks {
            request: TaskRequest::Initialize,
            tasks: requested(bv_task_ids, bv_task_req, REQ_INITIALIZE),
        },
        Op::RequestTasks {
            request: TaskRequest::Execute,
            tasks: requested(bv_task_ids, bv_task_req, REQ_EXECUTE),
        },
        Op::RequestTasks {
            request: TaskRequest::Terminate,
            tasks: requested(bv_task_ids, bv_task_req, REQ_TERMINATE),
        },
        Op::Unpend(INT_SCIF_CTRL_READY),
        Op::Unmask(INT_SCIF_CTRL_READY),
        Op::Modify { addr: AUX_EVCTL_VECCFG0, clear: AUX_EVCTL_VECCFG0_VEC0_POL, set: 0 },
        Op::Modify {
            addr: AUX_EVCTL_VECCFG0,
            clear: AUX_EVCTL_VECCFG0_VEC0_POL,
            set: AUX_EVCTL_VECCFG0_VEC0_POL,
        },
    ]
}

/// Whether the image differs, word by word, from the one that was uploaded last.
pub open spec fn needs_upload(last: Option<&'static [u16]>, image: Seq<u16>) -> bool {
    match last {
        None => true,
        Some(words) => words@ != image,
    }
}

/// The operations that start the Sensor Controller.
pub open spec fn init_ops(upload: bool, words: usize) -> Seq<Op> {
    seq![
        Op::Call(Call::AuxWucClockEnable { clocks: 0xFF }),
        Op::Call(Call::AuxWucFreezeDisable),
    ] + (if upload {
        seq![Op::UploadAuxRamImage { words }]
    } else {
        seq![]
    }) + seq![
        Op::InitTaskResources,
        Op::Write { addr: AUX_EVCTL_VECCFG0, value: 0x202B },
        Op::Write { addr: AUX_EVCTL_VECCFG1, value: 0x2B0B },
        Op::Write { addr: AUX_SCE_CTL, value: AUX_SCE_CTL_RESET_VECTOR_1 },
        Op::Write { addr: AUX_EVCTL_VECFLAGS, value: 0 },
        Op::Write { addr: AUX_EVCTL_SWEVSET, value: AUX_EVCTL_SWEV0 },
        Op::Call(Call::AuxWucPowerCtrl { mode: AUX_WUC_POWER_DOWN }),
        Op::Read { addr: AUX_WUC_MCUBUSCTL },
        Op::Call(Call::AonWucAuxImageValid),
        Op::Call(Call::SysCtrlAonSync),
        Op::Unpend(INT_SCIF_CTRL_READY),
        Op::Unmask(INT_SCIF_CTRL_READY),
        Op::Unpend(INT_SCIF_TASK_ALERT),
        Op::Unmask(INT_SCIF_TASK_ALERT),
    ]
}

/// Whether two word arrays hold the same words.
fn same_words(a: &[u16], b: &[u16]) -> (r: bool)
    ensures
        r == (a@ == b@),
{
    if a.len() != b.len() {
        return false;
    }
    let mut i: usize = 0;
    while i < a.len()
        invariant
            a@.len() == b@.len(),
            i <= a@.len(),
            forall|j: int| 0 <= j < i ==> a@[j] == b@[j],
        decreases a@.len() - i,
    {
        if a[i] != b[i] {
            return false;
        }
        i = i + 1;
    }
    assert(a@ =~= b@);
    true
}

/// The lowest bit of a nonzero word, as [`bit`] sees it.
proof fn lemma_trailing_zeros(w: u32)
    requires
        w != 0,
    ensures
        w.trailing_zeros() < 32,
        bit(w, w.trailing_zeros()),
        forall|j: u32| j < w.trailing_zeros() ==> !#[trigger] bit(w, j),
{
    vstd::std_specs::bits::axiom_u32_trailing_zeros(w);
    let n = w.trailing_zeros();
    assert(w & (1u32 << n) != 0) by (bit_vector)
        requires
            n < 32,
            (w >> n) & 1u32 == 1u32,
    ;
    assert forall|j: u32| j < n implies !#[trigger] bit(w, j) by {
        assert((w >> j) & 1u32 == 0u32);
        assert(w & (1u32 << j) == 0) by (bit_vector)
            requires
                j < 32,
                (w >> j) & 1u32 == 0u32,
        ;
    }
}

/// Clearing bit `n` of a word.
proof fn lemma_clear_bit(w: u32, n: u32)
    requires
        n < 32,
    ensures
        forall|j: u32| j < 32 ==> #[trigger] bit(w & !(1u32 << n), j) == (bit(w, j) && j != n),
        bit(w, n) ==> w & !(1u32 << n) < w,
{
    let c = w & !(1u32 << n);
    assert forall|j: u32| j < 32 implies #[trigger] bit(c, j) == (bit(w, j) && j != n) by {
        assert((c & (1u32 << j) != 0) == (w & (1u32 << j) != 0 && j != n)) by (bit_vector)
            requires
                j < 32,
                n < 32,
                c == w & !(1u32 << n),
        ;
    }
    assert(w & (1u32 << n) != 0 ==> w & !(1u32 << n) < w) by (bit_vector);
}

/// Structures that are not in the bit vector add nothing.
proof fn lemma_reset_skip(lut: Seq<u32>, task_id: u32, structs: u32, k: nat, n: nat)
    requires
        k <= n <= 32,
        forall|j: u32| k <= j < n ==> !#[trigger] bit(structs, j),
    ensures
        task_reset_ops(lut, task_id, structs, n) == task_reset_ops(lut, task_id, structs, k),
    decreases n,
{
    if k < n {
        lemma_reset_skip(lut, task_id, structs, k, (n - 1) as nat);
        assert(!bit(structs, (n - 1) as u32));
        assert(task_reset_ops(lut, task_id, structs, n) =~= task_reset_ops(
            lut,
            task_id,
            structs,
            (n - 1) as nat,
        ));
    }
}

/// Tasks that are not in the bit vector add nothing.
proof fn lemma_reset_all_skip(lut: Seq<u32>, task_ids: u32, structs: u32, k: nat, n: nat)
    requires
        k <= n <= 32,
        forall|t: u32| k <= t < n ==> !#[trigger] bit(task_ids, t),
    ensures
        reset_all_ops(lut, task_ids, structs, n) == reset_all_ops(lut, task_ids, structs, k),
    decreases n,
{
    if k < n {
        lemma_reset_all_skip(lut, task_ids, structs, k, (n - 1) as nat);
        assert(!bit(task_ids, (n - 1) as u32));
        assert(reset_all_ops(lut, task_ids, structs, n) =~= reset_all_ops(
            lut,
            task_ids,
            structs,
            (n - 1) as nat,
        ));
    }
}

/// No bit of zero is set.
pub proof fn lemma_no_bits(j: u32)
    ensures
        !bit(0, j),
{
    assert(0u32 & (1u32 << j) == 0) by (bit_vector);
}

/// The state structure is among those that are reset, and nothing else is added.
pub proof fn lemma_structs_to_reset(structs: u32, k: u32)
    requires
        k < 32,
    ensures
        bit(structs_to_reset(structs), k) == (bit(structs, k) || k == 3),
{
    assert(((structs | (1u32 << 3u32)) & (1u32 << k) != 0) == (structs & (1u32 << k) != 0 || k
        == 3)) by (bit_vector)
        requires
            k < 32,
    ;
}

/// Joining no tasks to some.
pub proof fn lemma_join_none(tasks: u16)
    ensures
        tasks | 0 == tasks,
{
    assert(tasks | 0u16 == tasks) by (bit_vector);
}

/// A request of all three kinds, for tasks that are named by 16 bits.
pub proof fn lemma_request_once(tasks: u16)
    ensures
        (tasks as u32) as u16 == tasks,
        0x07u32 & REQ_INITIALIZE != 0,
        0x07u32 & REQ_EXECUTE != 0,
        0x07u32 & REQ_TERMINATE != 0,
{
    assert((tasks as u32) as u16 == tasks && 0x07u32 & 0x01u32 != 0 && 0x07u32 & 0x02u32 != 0
        && 0x07u32 & 0x04u32 != 0) by (bit_vector);
}

impl Scif {
    /// A driver that has not been initialized.
    pub fn new() -> (r: Self)
        ensures
            r.scif_data is None,
            r.bv_dirty_tasks == 0,
            r.last_aux_ram_image is None,
            !r.ready,
    {
        Scif { scif_data: None, bv_dirty_tasks: 0x0000, last_aux_ram_image: None, ready: false }
    }

    /// The setup of the project.
    pub fn scif_data(&self) -> (r: SCIFData)
        requires
            self.scif_data is Some,
        ensures
            r == self.scif_data->0,
    {
        self.scif_data.unwrap()
    }

    /// Sets up an AUX I/O, first in the AUX I/O controller, then in the MCU I/O controller.
    pub fn scif_init_io(
        &self,
        aux_io_index: u32,
        io_mode: u32,
        pull_level: i32,
        output_value: u32,
    ) -> (ops: Vec<Op>)
        requires
            self.scif_data is Some,
            aux_io_index < 24,
            aux_io_index < (self.scif_data->0).aux_io_index_to_mcu_iocfg_offset_lut@.len(),
            -1 <= pull_level <= 1,
        ensures
            ops@ == init_io_ops(
                (self.scif_data->0).aux_io_index_to_mcu_iocfg_offset_lut@,
                aux_io_index,
                io_mode,
                pull_level,
                output_value,
            ),
    {
        // Calculate access parameters from the AUX I/O index
        let (base, pin): (u32, u32) = if aux_io_index >= 8 {
            (AUX_AIODIO1_BASE, aux_io_index - 8)
        } else {
            (AUX_AIODIO0_BASE, aux_io_index)
        };
        let pin2: u32 = 2 * pin;
        // Set up the AUX I/O controller; the read ensures that the settings have taken effect
        let mut ops: Vec<Op> = vec![
            Op::Modify {
                addr: base + AUX_AIODIO_O_IOMODE,
                clear: 0x03u32 << pin2,
                set: io_mode << pin2,
            },
            Op::Modify {
                addr: base + AUX_AIODIO_O_GPIODOUT,
                clear: 0x01u32 << pin,
                set: output_value << pin,
            },
            Op::Modify {
                addr: base + AUX_AIODIO_O_GPIODIE,
                clear: 0x01u32 << pin,
                set: (io_mode >> 16) << pin,
            },
            Op::Read { addr: base + AUX_AIODIO_O_GPIODIE },
        ];
        append(&mut ops, self.scif_reinit_io(aux_io_index, pull_level));
        ops
    }

    /// Makes the setup of an AUX I/O effective in the MCU I/O controller.
    pub fn scif_reinit_io(&self, aux_io_index: u32, pull_level: i32) -> (ops: Vec<Op>)
        requires
            self.scif_data is Some,
            aux_io_index < (self.scif_data->0).aux_io_index_to_mcu_iocfg_offset_lut@.len(),
            -1 <= pull_level <= 1,
        ensures
            ops@ == seq![
                reinit_io_op(
                    (self.scif_data->0).aux_io_index_to_mcu_iocfg_offset_lut@,
                    aux_io_index,
                    pull_level,
                ),
            ],
    {
        let offset: u32 =
            self.scif_data().aux_io_index_to_mcu_iocfg_offset_lut[aux_io_index as usize] as u32;
        let pull: u32 = if pull_level == -1 {
            IOC_IOCFG0_PULL_CTL_DIS
        } else if pull_level == 0 {
            IOC_IOCFG0_PULL_CTL_DWN
        } else {
            IOC_IOCFG0_PULL_CTL_UP
        };
        vec![
            Op::Write {
                addr: IOC_BASE + IOC_O_IOCFG0 + offset,
                value: IOC_IOCFG0_PORT_ID_AUX_IO | pull,
            },
        ]
    }

    /// Initializes the driver and starts the Sensor Controller, unless it runs
    /// already. `auxctl` is what the AUX control register reads.
    pub fn scif_init(
        &mut self,
        auxctl: u32,
        scif_driver_setup: SCIFData,
        dirty_tasks: u16,
    ) -> (r: (SCIFResult, Vec<Op>))
        ensures
            auxctl & AON_WUC_AUXCTL_SCE_RUN_EN != 0 ==> r.0 == SCIFResult::IllegalOperation
                && r.1@.len() == 0 && *final(self) == *old(self),
            auxctl & AON_WUC_AUXCTL_SCE_RUN_EN == 0 ==> {
                let image = scif_driver_setup.aux_ram_image;
                &&& r.0 == SCIFResult::Success
                &&& r.1@ == init_ops(
                    needs_upload(old(self).last_aux_ram_image, image@),
                    image.len(),
                )
                &&& final(self).scif_data == Some(scif_driver_setup)
                &&& final(self).bv_dirty_tasks == dirty_tasks
                &&& final(self).last_aux_ram_image is Some
                &&& (final(self).last_aux_ram_image->0)@ == image@
                &&& final(self).ready == old(self).ready
            },
    {
        // Perform sanity checks: The Sensor Controller cannot already be active
        if auxctl & AON_WUC_AUXCTL_SCE_RUN_EN != 0 {
            return (SCIFResult::IllegalOperation, Vec::new());
        }
        // Copy the driver setup

        self.scif_data = Some(scif_driver_setup);
        self.bv_dirty_tasks = dirty_tasks;

        // Enable clock for required AUX modules
        let clocks: u32 = AUX_WUC_SMPH_CLOCK | AUX_WUC_AIODIO0_CLOCK | AUX_WUC_AIODIO1_CLOCK
            | AUX_WUC_TIMER_CLOCK | AUX_WUC_ANAIF_CLOCK | AUX_WUC_TDCIF_CLOCK | AUX_WUC_ADI_CLOCK
            | AUX_WUC_OSCCTRL_CLOCK;
        assert(clocks == 0xFF) by (bit_vector)
            requires
                clocks == 0x1u32 | 0x2u32 | 0x4u32 | 0x8u32 | 0x10u32 | 0x20u32 | 0x80u32 | 0x40u32,
        ;
        let mut ops: Vec<Op> = vec![
            Op::Call(Call::AuxWucClockEnable { clocks }),
            // Open the AUX I/O latches, which have undefined value after power-up. AUX_AIODIO will
            // by default drive '0' on all I/O pins, so AUX_AIODIO must be configured before IOC
            Op::Call(Call::AuxWucFreezeDisable),
        ];

        // Upload the AUX RAM image
        let image: &'static [u16] = scif_driver_setup.aux_ram_image;
        let upload: bool = match self.last_aux_ram_image {
            None => true,
            Some(words) => !same_words(words, image),
        };
        if upload {
            ops.push(Op::UploadAuxRamImage { words: image.len() });
            self.last_aux_ram_image = Some(image);
        }
        // Perform task resource initialization

        ops.push(Op::InitTaskResources);

        // Map events to the Sensor Controller's vector table, and set reset vector = AON wakeup
        let veccfg0: u32 = AUX_EVCTL_VECCFG0_VEC0_EV_AON_SW | AUX_EVCTL_VECCFG0_VEC0_EN
            | AUX_EVCTL_VECCFG0_VEC1_EV_AON_RTC_CH2 | AUX_EVCTL_VECCFG0_VEC1_EN;
        let veccfg1: u32 = AUX_EVCTL_VECCFG1_VEC2_EV_AON_SW | AUX_EVCTL_VECCFG1_VEC3_EV_AON_SW
            | AUX_EVCTL_VECCFG1_VEC3_EN;
        assert(veccfg0 == 0x202B && veccfg1 == 0x2B0B) by (bit_vector)
            requires
                veccfg0 == 0xBu32 | 0x20u32 | 0u32 | 0x2000u32,
                veccfg1 == 0xBu32 | 0xB00u32 | 0x2000u32,
        ;
        ops.push(Op::Write { addr: AUX_EVCTL_VECCFG0, value: veccfg0 });
        ops.push(Op::Write { addr: AUX_EVCTL_VECCFG1, value: veccfg1 });
        ops.push(Op::Write { addr: AUX_SCE_CTL, value: AUX_SCE_CTL_RESET_VECTOR_1 });
        // Clear any vector flags currently set (due to previous hardware or driver operation)
        ops.push(Op::Write { addr: AUX_EVCTL_VECFLAGS, value: 0 });
        // Set the READY event
        ops.push(Op::Write { addr: AUX_EVCTL_SWEVSET, value: AUX_EVCTL_SWEV0 });

        // Let AUX be powered down (clocks disabled, full retention) and the bus connection between
        // the AUX and MCU domains be disconnected by default
        ops.push(Op::Call(Call::AuxWucPowerCtrl { mode: AUX_WUC_POWER_DOWN }));
        // Start the Sensor Controller, but first read a register from the AUX domain to ensure
        // that the last write accesses have been completed
        ops.push(Op::Read { addr: AUX_WUC_MCUBUSCTL });
        ops.push(Op::Call(Call::AonWucAuxImageValid));
        ops.push(Op::Call(Call::SysCtrlAonSync));

        // Enable the interrupts. They are cleared first because they might have been used before
        append(&mut ops, Self::osal_clear_ctrl_ready_int());
        append(&mut ops, Self::osal_enable_ctrl_ready_int());
        append(&mut ops, Self::osal_clear_task_alert_int());
        append(&mut ops, Self::osal_enable_task_alert_int());
        (SCIFResult::Success, ops)
    }

    /// Clears the source of the READY interrupt, waits until that has taken
    /// effect, and opens the control interface.
    pub fn scif_clear_ready_int_source(&mut self) -> (ops: Vec<Op>)
        ensures
            ops@ == seq![
                Op::Write { addr: AUX_EVCTL_EVTOAONFLAGSCLR, value: AUX_EVCTL_SWEV0 },
                Op::WaitClear { addr: AUX_EVCTL_EVTOAONFLAGS, mask: AUX_EVCTL_SWEV0 },
            ],
            *final(self) == (Scif { ready: true, ..*old(self) }),
    {
        self.ready = true;
        vec![
            Op::Write { addr: AUX_EVCTL_EVTOAONFLAGSCLR, value: AUX_EVCTL_SWEV0 },
            Op::WaitClear { addr: AUX_EVCTL_EVTOAONFLAGS, mask: AUX_EVCTL_SWEV0 },
        ]
    }

    /// Clears the source of the ALERT interrupt and waits until that has taken effect.
    pub fn scif_clear_alert_int_source() -> (ops: Vec<Op>)
        ensures
            ops@ == seq![
                Op::Write { addr: AUX_EVCTL_EVTOAONFLAGSCLR, value: AUX_EVCTL_SWEV1 },
                Op::WaitClear { addr: AUX_EVCTL_EVTOAONFLAGS, mask: AUX_EVCTL_SWEV1 },
            ],
    {
        vec![
            Op::Write { addr: AUX_EVCTL_EVTOAONFLAGSCLR, value: AUX_EVCTL_SWEV1 },
            Op::WaitClear { addr: AUX_EVCTL_EVTOAONFLAGS, mask: AUX_EVCTL_SWEV1 },
        ]
    }

    /// Resets task data structures to what the AUX RAM image holds, and marks the tasks as
    /// clean. The structures in the bit vector `bv_task_structs`, and the state structure
    /// in any case, are reset for each task in the bit vector `bv_task_ids`.
    pub fn scif_reset_task_structs(&mut self, bv_task_ids: u32, bv_task_structs: u32) -> (ops: Vec<
        Op,
    >)
        requires
            bv_task_ids != 0 ==> {
                &&& old(self).scif_data is Some
                &&& describes_all(
                    (old(self).scif_data->0).task_data_struct_info_lut@,
                    bv_task_ids,
                    structs_to_reset(bv_task_structs),
                )
            },
        ensures
            *final(self) == (Scif {
                bv_dirty_tasks: old(self).bv_dirty_tasks & ((!bv_task_ids) as u16),
                ..*old(self)
            }),
            bv_task_ids == 0 ==> ops@.len() == 0,
            bv_task_ids != 0 ==> ops@ == reset_all_ops(
                (old(self).scif_data->0).task_data_struct_info_lut@,
                bv_task_ids,
                structs_to_reset(bv_task_structs),
                32,
            ),
    {
        // Indicate that the data structure has been cleared
        self.bv_dirty_tasks = self.bv_dirty_tasks & ((!bv_task_ids) as u16);

        // Always clean the state data structure
        let state: u32 = SCIFTaskStructType::SCIFStructState.index();
        let structs: u32 = bv_task_structs | (1u32 << state);
        let mut task_ids: u32 = bv_task_ids;
        let mut ops: Vec<Op> = Vec::new();
        let ghost lut = (self.scif_data->0).task_data_struct_info_lut@;
        let ghost mut done: nat = 0;

        // As long as there are more tasks to reset ...
        while task_ids != 0
            invariant
                structs == structs_to_reset(bv_task_structs),
                lut == (self.scif_data->0).task_data_struct_info_lut@,
                bv_task_ids != 0 ==> self.scif_data is Some && describes_all(
                    lut,
                    bv_task_ids,
                    structs,
                ),
                *self == (Scif {
                    bv_dirty_tasks: old(self).bv_dirty_tasks & ((!bv_task_ids) as u16),
                    ..*old(self)
                }),
                task_ids != 0 ==> bv_task_ids != 0,
                done <= 32,
                forall|t: u32|
                    t < 32 ==> #[trigger] bit(task_ids, t) == (bit(bv_task_ids, t) && t >= done),
                bv_task_ids == 0 ==> ops@.len() == 0,
                bv_task_ids != 0 ==> ops@ == reset_all_ops(lut, bv_task_ids, structs, done),
            decreases task_ids,
        {
            let task_id: u32 = task_ids.trailing_zeros();
            let ghost before = task_ids;
            proof {
                lemma_trailing_zeros(task_ids);
                lemma_clear_bit(task_ids, task_id);
                assert(bit(bv_task_ids, task_id) && task_id >= done);
                assert forall|t: u32| done <= t < task_id implies !#[trigger] bit(
                    bv_task_ids,
                    t,
                ) by {
                    assert(!bit(task_ids, t));
                }
                lemma_reset_all_skip(lut, bv_task_ids, structs, done, task_id as nat);
            }
            task_ids = task_ids & !(1u32 << task_id);
            append(
                &mut ops,
                Self::reset_task(self.scif_data().task_data_struct_info_lut, task_id, structs),
            );
            proof {
                done = task_id as nat + 1;
                assert(ops@ =~= reset_all_ops(lut, bv_task_ids, structs, done));
                assert forall|t: u32| t < 32 implies #[trigger] bit(task_ids, t) == (bit(
                    bv_task_ids,
                    t,
                ) && t >= done) by {
                    assert(bit(task_ids, t) == (bit(before, t) && t != task_id));
                    if t < task_id {
                        assert(!bit(before, t));
                    }
                }
            }
        }
        proof {
            assert forall|t: u32| done <= t < 32 implies !#[trigger] bit(bv_task_ids, t) by {
                lemma_no_bits(t);
            }
            lemma_reset_all_skip(lut, bv_task_ids, structs, done, 32);
        }
        ops
    }

    /// Resets the structures in the bit vector `bv_task_structs` of one task.
    fn reset_task(lut: &[u32], task_id: u32, bv_task_structs: u32) -> (ops: Vec<Op>)
        requires
            task_id < 32,
            describes(lut@, task_id, bv_task_structs),
        ensures
            ops@ == task_reset_ops(lut@, task_id, bv_task_structs, 32),
    {
        let mut structs: u32 = bv_task_structs;
        let mut ops: Vec<Op> = Vec::new();
        let ghost mut done: nat = 0;

        // For each data structure to be reset ...
        while structs != 0
            invariant
                task_id < 32,
                describes(lut@, task_id, bv_task_structs),
                done <= 32,
                forall|j: u32|
                    j < 32 ==> #[trigger] bit(structs, j) == (bit(bv_task_structs, j) && j >= done),
                ops@ == task_reset_ops(lut@, task_id, bv_task_structs, done),
            decreases structs,
        {
            let n: u32 = structs.trailing_zeros();
            let ghost before = structs;
            proof {
                lemma_trailing_zeros(structs);
                lemma_clear_bit(structs, n);
                assert(bit(bv_task_structs, n) && n >= done);
                assert forall|j: u32| done <= j < n implies !#[trigger] bit(
                    bv_task_structs,
                    j,
                ) by {
                    assert(!bit(structs, j));
                }
                lemma_reset_skip(lut@, task_id, bv_task_structs, done, n as nat);
            }
            structs = structs & !(1u32 << n);
            let task_struct_info: u32 = lut[(task_id * 4 + n) as usize];

            // If it exists ...
            if task_struct_info != 0 {
                ops.push(Self::reset_copy(task_struct_info));
            }
            proof {
                done = n as nat + 1;
                assert(ops@ =~= task_reset_ops(lut@, task_id, bv_task_structs, done));
                assert forall|j: u32| j < 32 implies #[trigger] bit(structs, j) == (bit(
                    bv_task_structs,
                    j,
                ) && j >= done) by {
                    assert(bit(structs, j) == (bit(before, j) && j != n));
                    if j < n {
                        assert(!bit(before, j));
                    }
                }
            }
        }
        proof {
            assert forall|j: u32| done <= j < 32 implies !#[trigger] bit(bv_task_structs, j) by {
                lemma_no_bits(j);
            }
            lemma_reset_skip(lut@, task_id, bv_task_structs, done, 32);
        }
        ops
    }

    /// Whether the structures can be reset: the table describes each of them for each task
    /// in the bit vector `bv_task_ids`.
    pub fn can_reset_task_structs(&self, bv_task_ids: u32, bv_task_structs: u32) -> (r: bool)
        ensures
            r == (bv_task_ids != 0 ==> {
                &&& self.scif_data is Some
                &&& describes_all(
                    (self.scif_data->0).task_data_struct_info_lut@,
                    bv_task_ids,
                    structs_to_reset(bv_task_structs),
                )
            }),
    {
        if bv_task_ids == 0 {
            return true;
        }
        if self.scif_data.is_none() {
            return false;
        }
        let lut: &'static [u32] = self.scif_data().task_data_struct_info_lut;
        let structs: u32 = bv_task_structs | (1u32 << 3);
        let mut t: u32 = 0;
        while t < 32
            invariant
                t <= 32,
                self.scif_data is Some,
                bv_task_ids != 0,
                lut@ == (self.scif_data->0).task_data_struct_info_lut@,
                structs == structs_to_reset(bv_task_structs),
                forall|i: u32|
                    i < t && #[trigger] bit(bv_task_ids, i) ==> describes(lut@, i, structs),
            decreases 32 - t,
        {
            if bv_task_ids & (1u32 << t) != 0 && !Self::is_described(lut, t, structs) {
                assert(bit(bv_task_ids, t));
                return false;
            }
            t = t + 1;
        }
        true
    }

    /// Whether the table describes every structure in the bit vector `structs` of a task.
    fn is_described(lut: &[u32], task_id: u32, structs: u32) -> (r: bool)
        requires
            task_id < 32,
        ensures
            r == describes(lut@, task_id, structs),
    {
        let mut n: u32 = 0;
        while n < 32
            invariant
                n <= 32,
                task_id < 32,
                forall|j: u32|
                    j < n && #[trigger] bit(structs, j) ==> task_id * 4 + j < lut@.len()
                        && resettable(lut@[task_id * 4 + j]),
            decreases 32 - n,
        {
            let index: usize = (task_id * 4 + n) as usize;
            if structs & (1u32 << n) != 0 && (index >= lut.len() || !Self::is_resettable(
                lut[index],
            )) {
                assert(bit(structs, n));
                return false;
            }
            n = n + 1;
        }
        true
    }

    /// Whether offset and length of the copy are representable in 16 bits.
    fn is_resettable(task_struct_info: u32) -> (r: bool)
        ensures
            r == resettable(task_struct_info),
    {
        let addr: u32 = task_struct_info % 0x1000;
        let count: u32 = (task_struct_info / 0x1000) % 0x100;
        let size: u32 = task_struct_info / 0x10_0000;
        assert(size * count <= 0xFFF * 0xFF && 2 * size * count == 2 * (size * count))
            by (nonlinear_arith)
            requires
                size <= 0xFFF,
                count <= 0xFF,
        ;
        let control: u32 = if count > 1 {
            SCIF_TASK_STRUCT_CTRL_SIZE
        } else {
            0
        };
        addr >= control && 2 * (size * count) + control <= 0xFFFF
    }

    /// The copy that resets one task data structure.
    fn reset_copy(task_struct_info: u32) -> (op: Op)
        requires
            task_struct_info != 0,
            resettable(task_struct_info),
        ensures
            reset_ops(task_struct_info) == seq![op],
    {
        let i: u32 = task_struct_info;
        // Split the information
        let mut addr: u16 = (#[verifier::truncate] (i as u16)) & 0x0FFF;  // 11:0
        let count: u16 = (#[verifier::truncate] ((i >> 12) as u16)) & 0x00FF;  // 19:12
        let size: u16 = (#[verifier::truncate] ((i >> 20) as u16)) & 0x0FFF;  // 31:20
        assert((i as u16) & 0x0FFF == i % 0x1000 && ((i >> 12) as u16) & 0x00FF == (i / 0x1000)
            % 0x100 && ((i >> 20) as u16) & 0x0FFF == i / 0x10_0000) by (bit_vector);
        assert(2 * size * count <= u16::MAX && 2 * size <= 8190 && 0 <= 2 * size * count);
        let mut length: u16 = 2 * size * count;

        // If multiple-buffered, include the control variables
        if count > 1 {
            addr = addr - SCIF_TASK_STRUCT_CTRL_SIZE as u16;
            length = length + SCIF_TASK_STRUCT_CTRL_SIZE as u16;
        }
        Op::CopyToAuxRam { offset: addr as u32, len: length as u32 }
    }

    /// Asks the Sensor Controller to start, execute or stop tasks, without
    /// waiting for it. `active_tasks` is what the AUX RAM holds as the bit
    /// vector of active tasks. The request is illegal where it would start a
    /// task that is active or dirty.
    pub fn scif_ctrl_tasks_nbl(
        &mut self,
        bv_task_ids: u32,
        bv_task_req: u32,
        active_tasks: u16,
    ) -> (r: (SCIFResult, Vec<Op>))
        requires
            old(self).ready || bv_task_req & REQ_INITIALIZE != 0 ==> old(self).scif_data is Some,
        ensures
            starts_busy_task(bv_task_ids, bv_task_req, active_tasks, old(self).bv_dirty_tasks)
                ==> r.0 == SCIFResult::IllegalOperation && r.1@.len() == 0 && *final(self) == *old(
                self,
            ),
            !starts_busy_task(bv_task_ids, bv_task_req, active_tasks, old(self).bv_dirty_tasks)
                && !old(self).ready ==> r.0 == SCIFResult::NotReady && r.1@.len() == 0
                && *final(self) == *old(self),
            !starts_busy_task(bv_task_ids, bv_task_req, active_tasks, old(self).bv_dirty_tasks)
                && old(self).ready ==> r.0 == SCIFResult::Success && r.1@ == request_ops(
                bv_task_ids,
                bv_task_req,
            ) && *final(self) == (Scif {
                ready: false,
                bv_dirty_tasks: old(self).bv_dirty_tasks | requested(
                    bv_task_ids,
                    bv_task_req,
                    REQ_INITIALIZE,
                ),
                ..*old(self)
            }),
    {
        // Prevent interruptions by concurrent calls
        if !Self::osal_lock_ctrl_task_nbl() {
            return (SCIFResult::NotReady, Vec::new());
        }
        let tasks: u16 = #[verifier::truncate] (bv_task_ids as u16);

        // Perform sanity checks: Starting already active or dirty tasks is illegal
        if bv_task_req & REQ_INITIALIZE != 0 {
            if (active_tasks | self.bv_dirty_tasks) & tasks != 0 {
                return (SCIFResult::IllegalOperation, Vec::new());
            }
        }
        // Verify that the control interface is ready

        if !self.ready {
            return (SCIFResult::NotReady, Vec::new());
        }
        self.ready = false;

        // Initialize tasks?
        let initialize: u16 = if bv_task_req & REQ_INITIALIZE != 0 {
            self.bv_dirty_tasks = self.bv_dirty_tasks | tasks;
            tasks
        } else {
            0x0000
        };
        proof {
            lemma_join_none(old(self).bv_dirty_tasks);
        }
        // Execute tasks?
        let execute: u16 = if bv_task_req & REQ_EXECUTE != 0 {
            tasks
        } else {
            0x0000
        };
        // Terminate tasks? Terminating already inactive tasks is allowed, because tasks may stop
        // spontaneously, and there's no way to know this for sure
        let terminate: u16 = if bv_task_req & REQ_TERMINATE != 0 {
            tasks
        } else {
            0x0000
        };
        let mut ops: Vec<Op> = vec![
            Op::RequestTasks { request: TaskRequest::Initialize, tasks: initialize },
            Op::RequestTasks { request: TaskRequest::Execute, tasks: execute },
            Op::RequestTasks { request: TaskRequest::Terminate, tasks: terminate },
        ];

        // Make sure that the CPU interrupt has been cleared before reenabling it
        append(&mut ops, Self::osal_clear_ctrl_ready_int());
        append(&mut ops, Self::osal_enable_ctrl_ready_int());

        // Set the REQ event to hand over the request to the Sensor Controller
        ops.push(
            Op::Modify { addr: AUX_EVCTL_VECCFG0, clear: AUX_EVCTL_VECCFG0_VEC0_POL, set: 0 },
        );
        ops.push(
            Op::Modify {
                addr: AUX_EVCTL_VECCFG0,
                clear: AUX_EVCTL_VECCFG0_VEC0_POL,
                set: AUX_EVCTL_VECCFG0_VEC0_POL,
            },
        );
        (SCIFResult::Success, ops)
    }

    /// Asks the Sensor Controller to start tasks, execute them once and stop them.
    pub fn scif_execute_tasks_once_nbl(&mut self, bv_task_ids: u16, active_tasks: u16) -> (r: (
        SCIFResult,
        Vec<Op>,
    ))
        requires
            old(self).scif_data is Some,
        ensures
            (active_tasks | old(self).bv_dirty_tasks) & bv_task_ids != 0 ==> r.0
                == SCIFResult::IllegalOperation && r.1@.len() == 0 && *final(self) == *old(self),
            (active_tasks | old(self).bv_dirty_tasks) & bv_task_ids == 0 && !old(self).ready ==> r.0
                == SCIFResult::NotReady && r.1@.len() == 0 && *final(self) == *old(self),
            (active_tasks | old(self).bv_dirty_tasks) & bv_task_ids == 0 && old(self).ready ==> r.0
                == SCIFResult::Success && r.1@ == request_ops(bv_task_ids as u32, 0x07)
                && *final(self) == (Scif {
                ready: false,
                bv_dirty_tasks: old(self).bv_dirty_tasks | bv_task_ids,
                ..*old(self)
            }),
    {
        proof {
            lemma_request_once(bv_task_ids);
        }
        self.scif_ctrl_tasks_nbl(bv_task_ids as u32, 0x07, active_tasks)
    }

    /// Takes the lock of the control interface, which is free while interrupts
    /// do not make requests.
    fn osal_lock_ctrl_task_nbl() -> (r: bool)
        ensures
            r,
    {
        true
    }

    /// Handles the READY interrupt: the control interface takes requests again.
    pub fn ready_handler(&mut self) -> (ops: Vec<Op>)
        ensures
            ops@ == seq![
                Op::Write { addr: AUX_EVCTL_EVTOAONFLAGSCLR, value: AUX_EVCTL_SWEV0 },
                Op::WaitClear { addr: AUX_EVCTL_EVTOAONFLAGS, mask: AUX_EVCTL_SWEV0 },
                Op::Mask(INT_SCIF_CTRL_READY),
            ],
            *final(self) == (Scif { ready: true, ..*old(self) }),
    {
        let mut ops: Vec<Op> = self.scif_clear_ready_int_source();
        ops.push(Op::Mask(INT_SCIF_CTRL_READY));
        ops
    }

    /// Handles the ALERT interrupt.
    pub fn alert_handler() -> (ops: Vec<Op>)
        ensures
            ops@ == seq![
                Op::Write { addr: AUX_EVCTL_EVTOAONFLAGSCLR, value: AUX_EVCTL_SWEV1 },
                Op::WaitClear { addr: AUX_EVCTL_EVTOAONFLAGS, mask: AUX_EVCTL_SWEV1 },
                Op::Mask(INT_SCIF_TASK_ALERT),
            ],
    {
        let mut ops: Vec<Op> = Self::scif_clear_alert_int_source();
        ops.push(Op::Mask(INT_SCIF_TASK_ALERT));
        ops
    }

    fn osal_enable_ctrl_ready_int() -> (ops: Vec<Op>)
        ensures
            ops@ == seq![Op::Unmask(INT_SCIF_CTRL_READY)],
    {
        vec![Op::Unmask(INT_SCIF_CTRL_READY)]
    }

    fn osal_clear_ctrl_ready_int() -> (ops: Vec<Op>)
        ensures
            ops@ == seq![Op::Unpend(INT_SCIF_CTRL_READY)],
    {
        vec![Op::Unpend(INT_SCIF_CTRL_READY)]
    }

    fn osal_clear_task_alert_int() -> (ops: Vec<Op>)
        ensures
            ops@ == seq![Op::Unpend(INT_SCIF_TASK_ALERT)],
    {
        vec![Op::Unpend(INT_SCIF_TASK_ALERT)]
    }

    fn osal_enable_task_alert_int() -> (ops: Vec<Op>)
        ensures
            ops@ == seq![Op::Unmask(INT_SCIF_TASK_ALERT)],
    {
        vec![Op::Unmask(INT_SCIF_TASK_ALERT)]
    }
}

/// A task that was started cannot be started again: the next request to start it
/// is illegal, whatever the Sensor Controller reports as active.
pub proof fn started_task_is_busy(
    bv_task_ids: u32,
    bv_task_req: u32,
    dirty: u16,
    next_task_ids: u32,
    next_task_req: u32,
    next_active: u16,
)
    requires
        bv_task_req & REQ_INITIALIZE != 0,
        next_task_req & REQ_INITIALIZE != 0,
        (bv_task_ids as u16) & (next_task_ids as u16) != 0,
    ensures
        starts_busy_task(
            next_task_ids,
            next_task_req,
            next_active,
            dirty | requested(bv_task_ids, bv_task_req, REQ_INITIALIZE),
        ),
{
    let a = bv_task_ids as u16;
    let b = next_task_ids as u16;
    assert((next_active | (dirty | a)) & b != 0) by (bit_vector)
        requires
            a & b != 0,
    ;
}

/// Resetting the data structures of tasks that are not active allows to start
/// them again.
pub proof fn reset_task_is_startable(bv_task_ids: u32, bv_task_req: u32, active: u16, dirty: u16)
    requires
        active & (bv_task_ids as u16) == 0,
    ensures
        !starts_busy_task(bv_task_ids, bv_task_req, active, dirty & ((!bv_task_ids) as u16)),
{
    let ids = bv_task_ids;
    assert((active | (dirty & ((!ids) as u16))) & (ids as u16) == 0) by (bit_vector)
        requires
            active & (ids as u16) == 0,
    ;
}

/// Tasks that are neither requested nor reset stay as clean or dirty as they were.
pub proof fn other_tasks_keep_their_state(bv_task_ids: u32, bv_task_req: u32, dirty: u16, task: u16)
    requires
        task & (bv_task_ids as u16) == 0,
    ensures
        (dirty | requested(bv_task_ids, bv_task_req, REQ_INITIALIZE)) & task == dirty & task,
        (dirty & ((!bv_task_ids) as u16)) & task == dirty & task,
{
    let ids = bv_task_ids;
    assert((dirty | (ids as u16)) & task == dirty & task && (dirty | 0u16) & task == dirty & task
        && (dirty & ((!ids) as u16)) & task == dirty & task) by (bit_vector)
        requires
            task & (ids as u16) == 0,
    ;
}

/// An image that was uploaded is not uploaded again.
pub proof fn same_image_is_uploaded_once(last: &'static [u16], image: Seq<u16>)
    requires
        last@ == image,
    ensures
        !needs_upload(Some(last), image),
{
}

/// The image that was uploaded last, when the Sensor Controller was started with one image
/// after the other and each was uploaded unless it was the last one uploaded already.
pub open spec fn last_uploaded(images: Seq<Seq<u16>>) -> Option<Seq<u16>>
    decreases images.len(),
{
    if images.len() == 0 {
        None
    } else if last_uploaded(images.drop_last()) == Some(images.last()) {
        last_uploaded(images.drop_last())
    } else {
        Some(images.last())
    }
}

/// The image that the driver remembers, that of the last start, holds the same words as the
/// one that was uploaded last; so the next image is uploaded just when it differs from what
/// is in the AUX RAM.
pub proof fn last_upload_is_remembered(
    images: Seq<Seq<u16>>,
    remembered: &'static [u16],
    image: Seq<u16>,
)
    requires
        images.len() > 0,
        remembered@ == images.last(),
    ensures
        last_uploaded(images) == Some(remembered@),
        needs_upload(Some(remembered), image) <==> last_uploaded(images) != Some(image),
{
}

/// Starting the Sensor Controller uploads the image once, whole, if it is to be uploaded,
/// and otherwise copies nothing to the AUX RAM.
pub proof fn start_uploads_the_whole_image(upload: bool, words: usize, i: int)
    requires
        0 <= i < init_ops(upload, words).len(),
    ensures
        init_ops(upload, words)[i] matches Op::UploadAuxRamImage { words: n } ==> upload && i == 2
            && n == words,
        upload ==> init_ops(upload, words)[2] == (Op::UploadAuxRamImage { words }),
        !(init_ops(upload, words)[i] matches Op::CopyToAuxRam { offset, len }),
{
}

proof fn lemma_task_reset_stays_in_image(
    lut: Seq<u32>,
    task_id: u32,
    structs: u32,
    n: nat,
    image_len: nat,
    i: int,
)
    requires
        n <= 32,
        describes(lut, task_id, structs),
        forall|k: int|
            0 <= k < lut.len() ==> copy_offset(#[trigger] lut[k]) + copy_len(lut[k]) <= 2
                * image_len,
        0 <= i < task_reset_ops(lut, task_id, structs, n).len(),
    ensures
        task_reset_ops(lut, task_id, structs, n)[i] matches Op::CopyToAuxRam { offset, len }
            && offset + len <= 2 * image_len,
    decreases n,
{
    if n > 0 {
        let k = (n - 1) as nat;
        let before = task_reset_ops(lut, task_id, structs, k);
        if i < before.len() {
            lemma_task_reset_stays_in_image(lut, task_id, structs, k, image_len, i);
        } else {
            assert(bit(structs, k as u32));
            let info = lut[task_id * 4 + k];
            assert(0 <= info_size(info) * info_count(info)) by (nonlinear_arith)
                requires
                    0 <= info_size(info),
                    0 <= info_count(info),
            ;
            assert(2 * info_size(info) * info_count(info) == 2 * (info_size(info) * info_count(
                info,
            ))) by (nonlinear_arith);
        }
    }
}

proof fn lemma_resets_stay_in_image(
    lut: Seq<u32>,
    task_ids: u32,
    structs: u32,
    n: nat,
    image_len: nat,
    i: int,
)
    requires
        n <= 32,
        describes_all(lut, task_ids, structs),
        forall|k: int|
            0 <= k < lut.len() ==> copy_offset(#[trigger] lut[k]) + copy_len(lut[k]) <= 2
                * image_len,
        0 <= i < reset_all_ops(lut, task_ids, structs, n).len(),
    ensures
        reset_all_ops(lut, task_ids, structs, n)[i] matches Op::CopyToAuxRam { offset, len }
            && offset + len <= 2 * image_len,
    decreases n,
{
    if n > 0 {
        let t = (n - 1) as nat;
        let before = reset_all_ops(lut, task_ids, structs, t);
        if i < before.len() {
            lemma_resets_stay_in_image(lut, task_ids, structs, t, image_len, i);
        } else {
            assert(bit(task_ids, t as u32));
            lemma_task_reset_stays_in_image(
                lut,
                t as u32,
                structs,
                32,
                image_len,
                i - before.len(),
            );
        }
    }
}

/// Resetting the structures of tasks copies nothing from outside of the AUX RAM image,
/// where the table describes structures inside of it.
pub proof fn reset_stays_in_image(
    lut: Seq<u32>,
    task_ids: u32,
    structs: u32,
    image_len: nat,
    i: int,
)
    requires
        describes_all(lut, task_ids, structs),
        forall|k: int|
            0 <= k < lut.len() ==> copy_offset(#[trigger] lut[k]) + copy_len(lut[k]) <= 2
                * image_len,
        0 <= i < reset_all_ops(lut, task_ids, structs, 32).len(),
    ensures
        reset_all_ops(lut, task_ids, structs, 32)[i] matches Op::CopyToAuxRam { offset, len }
            && offset + len <= 2 * image_len,
{
    lemma_resets_stay_in_image(lut, task_ids, structs, 32, image_len, i);
}

proof fn lemma_task_reset_copies(lut: Seq<u32>, task_id: u32, structs: u32, k: u32, n: nat)
    requires
        k < n <= 32,
        bit(structs, k),
        lut[task_id * 4 + k] != 0,
    ensures
        task_reset_ops(lut, task_id, structs, n).contains(reset_ops(lut[task_id * 4 + k])[0]),
    decreases n,
{
    let m = (n - 1) as nat;
    let before = task_reset_ops(lut, task_id, structs, m);
    let all = task_reset_ops(lut, task_id, structs, n);
    let op = reset_ops(lut[task_id * 4 + k])[0];
    if k == m {
        assert(all[before.len() as int] == op);
    } else {
        lemma_task_reset_copies(lut, task_id, structs, k, m);
        let i = choose|i: int| 0 <= i < before.len() && before[i] == op;
        assert(all[i] == op);
    }
}

proof fn lemma_reset_all_copies(
    lut: Seq<u32>,
    task_ids: u32,
    structs: u32,
    t: u32,
    k: u32,
    n: nat,
)
    requires
        t < n <= 32,
        k < 32,
        bit(task_ids, t),
        bit(structs, k),
        lut[t * 4 + k] != 0,
    ensures
        reset_all_ops(lut, task_ids, structs, n).contains(reset_ops(lut[t * 4 + k])[0]),
    decreases n,
{
    let m = (n - 1) as nat;
    let before = reset_all_ops(lut, task_ids, structs, m);
    let all = reset_all_ops(lut, task_ids, structs, n);
    let op = reset_ops(lut[t * 4 + k])[0];
    if t == m {
        lemma_task_reset_copies(lut, t, structs, k, 32);
        let own = task_reset_ops(lut, t, structs, 32);
        let i = choose|i: int| 0 <= i < own.len() && own[i] == op;
        assert(all[before.len() + i] == op);
    } else {
        lemma_reset_all_copies(lut, task_ids, structs, t, k, m);
        let i = choose|i: int| 0 <= i < before.len() && before[i] == op;
        assert(all[i] == op);
    }
}

/// Of every task that is named, every structure that is to be reset, and the state
/// structure in any case, is copied from the image if it exists.
pub proof fn every_named_task_is_reset(
    lut: Seq<u32>,
    task_ids: u32,
    bv_task_structs: u32,
    t: u32,
    k: u32,
)
    requires
        t < 32,
        k < 32,
        bit(task_ids, t),
        bit(bv_task_structs, k) || k == 3,
        lut[t * 4 + k] != 0,
    ensures
        reset_all_ops(lut, task_ids, structs_to_reset(bv_task_structs), 32).contains(
            Op::CopyToAuxRam {
                offset: copy_offset(lut[t * 4 + k]) as u32,
                len: copy_len(lut[t * 4 + k]) as u32,
            },
        ),
{
    let structs = structs_to_reset(bv_task_structs);
    lemma_structs_to_reset(bv_task_structs, k);
    lemma_reset_all_copies(lut, task_ids, structs, t, k, 32);
}

/// Setting up an AUX I/O gives it its mode, its output and its input enable, and changes
/// those of no other AUX I/O of the controller.
pub proof fn init_io_concerns_one_io(
    lut: Seq<u8>,
    aux_io_index: u32,
    io_mode: u32,
    pull_level: i32,
    output_value: u32,
    v: u32,
    other: u32,
)
    requires
        aux_io_index < 16,
        io_mode % 0x1_0000 <= 3,
        io_mode / 0x1_0000 <= 1,
        output_value <= 1,
        other < 8,
    ensures
        ({
            let base = aiodio_base(aux_io_index);
            let pin = aiodio_pin(aux_io_index);
            let ops = init_io_ops(lut, aux_io_index, io_mode, pull_level, output_value);
            let mode = stored(ops, (base + AUX_AIODIO_O_IOMODE) as u32, v);
            let output = stored(ops, (base + AUX_AIODIO_O_GPIODOUT) as u32, v);
            let input_enable = stored(ops, (base + AUX_AIODIO_O_GPIODIE) as u32, v);
            let other2 = (2 * other) as u32;
            &&& (mode >> other2) & 3 == if other == pin {
                io_mode & 3
            } else {
                (v >> other2) & 3
            }
            &&& (output >> other) & 1 == if other == pin {
                output_value
            } else {
                (v >> other) & 1
            }
            &&& output >> 8 == v >> 8
            &&& (input_enable >> other) & 1 == if other == pin {
                io_mode >> 16
            } else {
                (v >> other) & 1
            }
            &&& input_enable >> 8 == v >> 8
        }),
{
    reveal_with_fuel(stored, 6);
    let base = aiodio_base(aux_io_index);
    let pin = aiodio_pin(aux_io_index);
    let ops = init_io_ops(lut, aux_io_index, io_mode, pull_level, output_value);
    let p2 = (2 * pin) as u32;
    let o2 = (2 * other) as u32;
    let die = io_mode >> 16;
    let mode = (v & !(0x03u32 << p2)) | (io_mode << p2);
    let output = (v & !(0x01u32 << pin)) | (output_value << pin);
    let input_enable = (v & !(0x01u32 << pin)) | (die << pin);
    let a = seq![ops[0]];
    let b = a.push(ops[1]);
    let c = b.push(ops[2]);
    let d = c.push(ops[3]);
    assert(d.push(ops[4]) =~= ops);
    assert(ops.drop_last() =~= d && d.drop_last() =~= c && c.drop_last() =~= b && b.drop_last()
        =~= a && a.drop_last() =~= seq![]);
    assert(stored(ops, (base + AUX_AIODIO_O_IOMODE) as u32, v) == mode);
    assert(stored(ops, (base + AUX_AIODIO_O_GPIODOUT) as u32, v) == output);
    assert(stored(ops, (base + AUX_AIODIO_O_GPIODIE) as u32, v) == input_enable);
    assert((mode >> o2) & 3 == if other == pin {
        io_mode & 3
    } else {
        (v >> o2) & 3
    } && die <= 1) by (bit_vector)
        requires
            mode == (v & !(0x03u32 << p2)) | (io_mode << p2),
            die == io_mode >> 16,
            pin < 8,
            other < 8,
            p2 == 2 * pin,
            o2 == 2 * other,
            io_mode % 0x1_0000 <= 3,
            io_mode / 0x1_0000 <= 1,
    ;
    lemma_set_pin(v, pin, output_value, other);
    lemma_set_pin(v, pin, die, other);
}

/// Putting a value into the bit of one pin.
proof fn lemma_set_pin(v: u32, pin: u32, value: u32, other: u32)
    requires
        pin < 8,
        value <= 1,
        other < 8,
    ensures
        ({
            let after = (v & !(0x01u32 << pin)) | (value << pin);
            &&& (after >> other) & 1 == if other == pin {
                value
            } else {
                (v >> other) & 1
            }
            &&& after >> 8 == v >> 8
        }),
{
    let after = (v & !(0x01u32 << pin)) | (value << pin);
    assert((after >> other) & 1 == if other == pin {
        value
    } else {
        (v >> other) & 1
    } && after >> 8 == v >> 8) by (bit_vector)
        requires
            after == (v & !(0x01u32 << pin)) | (value << pin),
            pin < 8,
            value <= 1,
            other < 8,
    ;
}

/// Handing over a request leaves the event vector configuration as it was, but
/// for the polarity of vector 0, which ends up as falling edge.
pub proof fn request_pulses_vector_0(bv_task_ids: u32, bv_task_req: u32, v: u32)
    ensures
        stored(request_ops(bv_task_ids, bv_task_req), AUX_EVCTL_VECCFG0, v) == v
            | AUX_EVCTL_VECCFG0_VEC0_POL,
{
    reveal_with_fuel(stored, 8);
    let ops = request_ops(bv_task_ids, bv_task_req);
    assert((((v & !0x40u32) | 0u32) & !0x40u32) | 0x40u32 == v | 0x40u32) by (bit_vector);
    assert(stored(ops.drop_last().drop_last(), AUX_EVCTL_VECCFG0, v) == v);
}

} // verus!
