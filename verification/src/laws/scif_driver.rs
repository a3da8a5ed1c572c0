//! Laws of the driver of the Sensor Controller.
use crate::chip::Interrupt;
use crate::hw::{bit, stored, Call, Op, TaskRequest};
use crate::laws::bits::{flags_are_joined, powers_of_two};
use crate::scif_driver::{
    describes, describes_all, init_io_concerns_one_io, lemma_join_none, lemma_no_bits,
    lemma_request_once, lemma_structs_to_reset, other_tasks_keep_their_state, reset_all_ops,
    reset_ops, reset_task_is_startable, resettable, started_task_is_busy, structs_to_reset,
    task_reset_ops, SCIFData, SCIFResult, SCIFTaskStructType, Scif,
};
use vstd::prelude::*;

verus! {

/// The structures of a task are numbered from 0 to 3.
pub proof fn structures_are_numbered(cfg: u32, input: u32, output: u32, state: u32)
    requires
        call_ensures(SCIFTaskStructType::index, (SCIFTaskStructType::SCIFStructCfg,), cfg),
        call_ensures(SCIFTaskStructType::index, (SCIFTaskStructType::SCIFStructInput,), input),
        call_ensures(SCIFTaskStructType::index, (SCIFTaskStructType::SCIFStructOutput,), output),
        call_ensures(SCIFTaskStructType::index, (SCIFTaskStructType::SCIFStructState,), state),
    ensures
        cfg == 0,
        input == 1,
        output == 2,
        state == 3,
{
}

/// A new driver has no setup, has uploaded nothing and takes no requests.
pub proof fn new_driver_is_not_set_up(scif: Scif)
    requires
        call_ensures(Scif::new, (), scif),
    ensures
        scif.scif_data is None,
        scif.bv_dirty_tasks == 0,
        scif.last_aux_ram_image is None,
        !scif.ready,
{
}

/// While the Sensor Controller runs, which bit 2 tells, the driver is not set up again.
pub proof fn running_controller_is_left_alone(
    scif: &mut Scif,
    auxctl: u32,
    setup: SCIFData,
    dirty: u16,
    r: (SCIFResult, Vec<Op>),
)
    requires
        call_ensures(Scif::scif_init, (scif, auxctl, setup, dirty), r),
    ensures
        bit(auxctl, 2) <==> r.0 == SCIFResult::IllegalOperation,
        !bit(auxctl, 2) <==> r.0 == SCIFResult::Success,
        bit(auxctl, 2) ==> r.1@.len() == 0 && *final(scif) == *old(scif),
{
    powers_of_two();
}

/// Starting the Sensor Controller remembers the setup and the image. The image goes to the AUX
/// RAM, whole, just when no image did or the last one held other words.
pub proof fn controller_is_started(
    scif: &mut Scif,
    auxctl: u32,
    setup: SCIFData,
    dirty: u16,
    r: (SCIFResult, Vec<Op>),
)
    requires
        call_ensures(Scif::scif_init, (scif, auxctl, setup, dirty), r),
        r.0 == SCIFResult::Success,
    ensures
        ({
            let last = old(scif).last_aux_ram_image;
            let upload = last is None || (last->0)@ != setup.aux_ram_image@;
            let n = if upload {
                3int
            } else {
                2
            };
            let ops = r.1@;
            &&& ops.len() == n + 14
            &&& ops[0] == Op::Call(Call::AuxWucClockEnable { clocks: 0xFF })
            &&& ops[1] == Op::Call(Call::AuxWucFreezeDisable)
            &&& upload ==> (ops[2] matches Op::UploadAuxRamImage { words } && words
                == setup.aux_ram_image@.len())
            &&& ops[n] == Op::InitTaskResources
            &&& ops[n + 1] == (Op::Write { addr: 0x400C_5000, value: 0x202B })
            &&& ops[n + 2] == (Op::Write { addr: 0x400C_5004, value: 0x2B0B })
            &&& ops[n + 3] == (Op::Write { addr: 0x400E_1000, value: 0x100 })
            &&& ops[n + 4] == (Op::Write { addr: 0x400C_5034, value: 0 })
            &&& ops[n + 5] == (Op::Write { addr: 0x400C_5018, value: 1 })
            &&& ops[n + 6] == Op::Call(Call::AuxWucPowerCtrl { mode: 2 })
            &&& ops[n + 7] == (Op::Read { addr: 0x400C_6048 })
            &&& ops[n + 8] == Op::Call(Call::AonWucAuxImageValid)
            &&& ops[n + 9] == Op::Call(Call::SysCtrlAonSync)
            &&& ops[n + 10] == Op::Unpend(Interrupt::UART1)
            &&& ops[n + 11] == Op::Unmask(Interrupt::UART1)
            &&& ops[n + 12] == Op::Unpend(Interrupt::AON_EVENT)
            &&& ops[n + 13] == Op::Unmask(Interrupt::AON_EVENT)
        }),
        final(scif).scif_data == Some(setup),
        final(scif).bv_dirty_tasks == dirty,
        final(scif).last_aux_ram_image is Some,
        (final(scif).last_aux_ram_image->0)@ == setup.aux_ram_image@,
        final(scif).ready == old(scif).ready,
{
}

/// The setup is the one that the driver was started with.
pub proof fn setup_is_the_one_given(
    scif: &mut Scif,
    auxctl: u32,
    setup: SCIFData,
    dirty: u16,
    r: (SCIFResult, Vec<Op>),
    data: SCIFData,
)
    requires
        call_ensures(Scif::scif_init, (scif, auxctl, setup, dirty), r),
        r.0 == SCIFResult::Success,
        call_ensures(Scif::scif_data, (final(scif),), data),
    ensures
        data == setup,
{
}

/// Whether an operation connects a pin of the MCU to the AUX domain, with the pull: -1 is
/// none, 0 is down, 1 is up. There are 4 bytes to a pin, and the table has them counted.
pub open spec fn connects(op: Op, offset: u8, pull: i32) -> bool {
    op matches Op::Write { addr, value } && addr == 0x4008_1000 + offset && value == if pull == -1 {
        0x6008u32
    } else if pull == 0 {
        0x2008
    } else {
        0x4008
    }
}

/// An AUX I/O is connected again by the pin and the pull that belong to it.
pub proof fn io_is_connected(scif: Scif, index: u32, pull: i32, ops: Vec<Op>)
    requires
        call_ensures(Scif::scif_reinit_io, (&scif, index, pull), ops),
        -1 <= pull <= 1,
    ensures
        ops@.len() == 1,
        connects(
            ops@[0],
            (scif.scif_data->0).aux_io_index_to_mcu_iocfg_offset_lut@[index as int],
            pull,
        ),
{
    flags_are_joined();
}

/// An AUX I/O is set up in its controller first, 8 to a controller: its mode by two bits, its
/// output and its input by one. It is read back, and connected last.
pub proof fn io_is_set_up(
    scif: Scif,
    index: u32,
    io_mode: u32,
    pull: i32,
    output: u32,
    ops: Vec<Op>,
)
    requires
        call_ensures(Scif::scif_init_io, (&scif, index, io_mode, pull, output), ops),
        index < 24,
        -1 <= pull <= 1,
    ensures
        ({
            let (base, pin): (u32, u32) = if index < 8 {
                (0x400C_1000, index)
            } else {
                (0x400C_2000, (index - 8) as u32)
            };
            let twice = (pin + pin) as u32;
            &&& ops@.len() == 5
            &&& ops@[0] == (Op::Modify {
                addr: (base + 0x04) as u32,
                clear: 3u32 << twice,
                set: io_mode << twice,
            })
            &&& ops@[1] == (Op::Modify { addr: base, clear: 1u32 << pin, set: output << pin })
            &&& ops@[2] == (Op::Modify {
                addr: (base + 0x18) as u32,
                clear: 1u32 << pin,
                set: (io_mode >> 16) << pin,
            })
            &&& ops@[3] == (Op::Read { addr: (base + 0x18) as u32 })
            &&& connects(
                ops@[4],
                (scif.scif_data->0).aux_io_index_to_mcu_iocfg_offset_lut@[index as int],
                pull,
            )
        }),
{
    flags_are_joined();
}

/// Setting up an AUX I/O concerns its own mode, output and input only.
pub proof fn io_keeps_to_itself(
    scif: Scif,
    index: u32,
    io_mode: u32,
    pull: i32,
    output: u32,
    ops: Vec<Op>,
    v: u32,
    other: u32,
)
    requires
        call_ensures(Scif::scif_init_io, (&scif, index, io_mode, pull, output), ops),
        index < 16,
        -1 <= pull <= 1,
        io_mode % 0x1_0000 <= 3,
        io_mode / 0x1_0000 <= 1,
        output <= 1,
        other < 16,
        other / 8 == index / 8,
    ensures
        ({
            let base: u32 = if index < 8 {
                0x400C_1000
            } else {
                0x400C_2000
            };
            let pin = other % 8;
            let pin2 = (2 * pin) as u32;
            &&& (stored(ops@, (base + 0x04) as u32, v) >> pin2) & 3 == if other == index {
                io_mode & 3
            } else {
                (v >> pin2) & 3
            }
            &&& (stored(ops@, base, v) >> pin) & 1 == if other == index {
                output
            } else {
                (v >> pin) & 1
            }
            &&& (stored(ops@, (base + 0x18) as u32, v) >> pin) & 1 == if other == index {
                io_mode >> 16
            } else {
                (v >> pin) & 1
            }
        }),
{
    init_io_concerns_one_io(
        (scif.scif_data->0).aux_io_index_to_mcu_iocfg_offset_lut@,
        index,
        io_mode,
        pull,
        output,
        v,
        other % 8,
    );
}

/// Whether an operation copies what the table describes: from bit 20 on the number of words of
/// a buffer, from bit 12 on the number of buffers, and below that the address. More than one
/// buffer has 6 bytes in front of it, which are copied too.
pub open spec fn copies(op: Op, info: u32) -> bool {
    let addr = info as int % 4096;
    let buffers = info as int / 4096 % 256;
    let words = info as int / 1_048_576;
    let front = if buffers > 1 {
        6int
    } else {
        0
    };
    op matches Op::CopyToAuxRam { offset, len } && offset == addr - front && len == 2 * words
        * buffers + front
}

/// Whether the place and the number of the bytes to be copied have 16 bits.
pub open spec fn fits(info: u32) -> bool {
    let buffers = info as int / 4096 % 256;
    if buffers > 1 {
        info as int % 4096 >= 6 && 2 * (info as int / 1_048_576) * buffers + 6 <= 65535
    } else {
        2 * (info as int / 1_048_576) * buffers <= 65535
    }
}

/// Whether structure `k` of task `t` is to be reset: both are named, and the state structure,
/// number 3, is in any case.
pub open spec fn named(ids: u32, structs: u32, t: u32, k: u32) -> bool {
    t < 32 && k < 32 && bit(ids, t) && (bit(structs, k) || k == 3)
}

/// Whether the table has everything that is to be reset, 4 structures to a task.
pub open spec fn has_all(lut: Seq<u32>, ids: u32, structs: u32) -> bool {
    forall|t: u32, k: u32| #[trigger]
        named(ids, structs, t, k) ==> 4 * t + k < lut.len() && fits(lut[4 * t + k])
}

proof fn all_is_described(lut: Seq<u32>, ids: u32, structs: u32)
    ensures
        has_all(lut, ids, structs) <==> describes_all(lut, ids, structs_to_reset(structs)),
{
    let all = structs_to_reset(structs);
    assert(forall|info: u32| #[trigger] fits(info) == resettable(info));
    if has_all(lut, ids, structs) {
        assert forall|t: u32| t < 32 && #[trigger] bit(ids, t) implies describes(lut, t, all) by {
            assert forall|n: u32| n < 32 && #[trigger] bit(all, n) implies t * 4 + n < lut.len()
                && resettable(lut[t * 4 + n]) by {
                lemma_structs_to_reset(structs, n);
                assert(named(ids, structs, t, n));
                assert(fits(lut[4 * t + n]));
            }
        }
    }
    if describes_all(lut, ids, all) {
        assert forall|t: u32, k: u32| #[trigger] named(ids, structs, t, k) implies 4 * t + k
            < lut.len() && fits(lut[4 * t + k]) by {
            lemma_structs_to_reset(structs, k);
            assert(describes(lut, t, all));
            assert(bit(all, k));
            assert(fits(lut[4 * t + k]) == resettable(lut[4 * t + k]));
        }
    }
}

/// Structures can be reset just when the table has them all, or when no task is named.
pub proof fn described_structures_can_be_reset(scif: Scif, ids: u32, structs: u32, r: bool)
    requires
        call_ensures(Scif::can_reset_task_structs, (&scif, ids, structs), r),
    ensures
        r <==> (ids == 0 || (scif.scif_data is Some && has_all(
            (scif.scif_data->0).task_data_struct_info_lut@,
            ids,
            structs,
        ))),
{
    all_is_described((scif.scif_data->0).task_data_struct_info_lut@, ids, structs);
}

/// Whether the operations copy the structures at the places, in the order of the tasks and
/// within a task of the structures.
pub open spec fn copies_in_order(ops: Seq<Op>, lut: Seq<u32>, places: Seq<(u32, u32)>) -> bool {
    &&& ops.len() == places.len()
    &&& forall|i: int| #![trigger places[i]]
        0 <= i < places.len() ==> copies(ops[i], lut[4 * places[i].0 + places[i].1])
    &&& forall|i: int, j: int| #![trigger places[i], places[j]]
        0 <= i < j < places.len() ==> places[i].0 < places[j].0 || (places[i].0 == places[j].0
            && places[i].1 < places[j].1)
}

proof fn places_of_a_task(lut: Seq<u32>, t: u32, structs: u32, n: nat) -> (places: Seq<(u32, u32)>)
    requires
        t < 32,
        n <= 32,
        describes(lut, t, structs),
    ensures
        copies_in_order(task_reset_ops(lut, t, structs, n), lut, places),
        forall|i: int| #![trigger places[i]]
            0 <= i < places.len() ==> places[i].0 == t && places[i].1 < n && bit(
                structs,
                places[i].1,
            ) && lut[4 * t + places[i].1] != 0,
        forall|k: u32| #![trigger bit(structs, k)]
            k < n && bit(structs, k) && lut[4 * t + k] != 0 ==> places.contains((t, k)),
    decreases n,
{
    if n == 0 {
        seq![]
    } else {
        let k = (n - 1) as u32;
        let before = places_of_a_task(lut, t, structs, k as nat);
        let info = lut[4 * t + k];
        if bit(structs, k) && info != 0 {
            let places = before.push((t, k));
            assert(fits(info) == resettable(info));
            assert(copies(reset_ops(info)[0], info));
            assert(task_reset_ops(lut, t, structs, n) =~= task_reset_ops(
                lut,
                t,
                structs,
                k as nat,
            ).push(reset_ops(info)[0]));
            assert forall|j: u32| #![trigger bit(structs, j)]
                j < n && bit(structs, j) && lut[4 * t + j] != 0 implies places.contains((t, j)) by {
                if j == k {
                    assert(places[before.len() as int] == (t, j));
                } else {
                    let i = choose|i: int| 0 <= i < before.len() && before[i] == (t, j);
                    assert(places[i] == (t, j));
                }
            }
            places
        } else {
            assert(task_reset_ops(lut, t, structs, n) =~= task_reset_ops(
                lut,
                t,
                structs,
                k as nat,
            ));
            before
        }
    }
}

proof fn places_of_tasks(lut: Seq<u32>, ids: u32, structs: u32, n: nat) -> (places: Seq<(u32, u32)>)
    requires
        n <= 32,
        describes_all(lut, ids, structs),
    ensures
        copies_in_order(reset_all_ops(lut, ids, structs, n), lut, places),
        forall|i: int| #![trigger places[i]]
            0 <= i < places.len() ==> places[i].0 < n && bit(ids, places[i].0) && places[i].1 < 32
                && bit(structs, places[i].1) && lut[4 * places[i].0 + places[i].1] != 0,
        forall|t: u32, k: u32| #![trigger bit(ids, t), bit(structs, k)]
            t < n && bit(ids, t) && k < 32 && bit(structs, k) && lut[4 * t + k] != 0
                ==> places.contains((t, k)),
    decreases n,
{
    if n == 0 {
        seq![]
    } else {
        let t = (n - 1) as u32;
        let before = places_of_tasks(lut, ids, structs, t as nat);
        if bit(ids, t) {
            assert(describes(lut, t, structs));
            let own = places_of_a_task(lut, t, structs, 32);
            let places = before + own;
            let ops = reset_all_ops(lut, ids, structs, n);
            let first = reset_all_ops(lut, ids, structs, t as nat);
            let rest = task_reset_ops(lut, t, structs, 32);
            assert(ops =~= first + rest);
            assert forall|i: int| #![trigger places[i]] 0 <= i < places.len() implies copies(
                ops[i],
                lut[4 * places[i].0 + places[i].1],
            ) && places[i].0 < n && bit(ids, places[i].0) && places[i].1 < 32 && bit(
                structs,
                places[i].1,
            ) && lut[4 * places[i].0 + places[i].1] != 0 by {
                if i < before.len() {
                    assert(places[i] == before[i]);
                } else {
                    assert(places[i] == own[i - before.len()]);
                }
            }
            assert forall|i: int, j: int| #![trigger places[i], places[j]]
                0 <= i < j < places.len() implies places[i].0 < places[j].0 || (places[i].0
                == places[j].0 && places[i].1 < places[j].1) by {
                if j < before.len() {
                    assert(places[i] == before[i] && places[j] == before[j]);
                } else if i < before.len() {
                    assert(places[i] == before[i] && places[j] == own[j - before.len()]);
                } else {
                    assert(places[i] == own[i - before.len()] && places[j] == own[j
                        - before.len()]);
                }
            }
            assert forall|s: u32, k: u32| #![trigger bit(ids, s), bit(structs, k)]
                s < n && bit(ids, s) && k < 32 && bit(structs, k) && lut[4 * s + k] != 0 implies
                places.contains((s, k)) by {
                if s == t {
                    let i = choose|i: int| 0 <= i < own.len() && own[i] == (s, k);
                    assert(places[before.len() + i] == (s, k));
                } else {
                    let i = choose|i: int| 0 <= i < before.len() && before[i] == (s, k);
                    assert(places[i] == (s, k));
                }
            }
            places
        } else {
            assert(reset_all_ops(lut, ids, structs, n) =~= reset_all_ops(
                lut,
                ids,
                structs,
                t as nat,
            ));
            before
        }
    }
}

/// Resetting copies just the structures that are to be reset and exist, each of them once and
/// in order.
pub proof fn named_structures_are_copied(
    scif: &mut Scif,
    ids: u32,
    structs: u32,
    ops: Vec<Op>,
) -> (places: Seq<(u32, u32)>)
    requires
        call_ensures(Scif::scif_reset_task_structs, (scif, ids, structs), ops),
        ids != 0 ==> old(scif).scif_data is Some && has_all(
            (old(scif).scif_data->0).task_data_struct_info_lut@,
            ids,
            structs,
        ),
    ensures
        copies_in_order(
            ops@,
            (old(scif).scif_data->0).task_data_struct_info_lut@,
            places,
        ),
        forall|t: u32, k: u32| #[trigger]
            places.contains((t, k)) <==> named(ids, structs, t, k) && (
            old(scif).scif_data->0).task_data_struct_info_lut@[4 * t + k] != 0,
{
    let lut = (old(scif).scif_data->0).task_data_struct_info_lut@;
    let all = structs_to_reset(structs);
    if ids == 0 {
        assert forall|t: u32, k: u32| !named(ids, structs, t, k) by {
            lemma_no_bits(t);
        }
        seq![]
    } else {
        all_is_described(lut, ids, structs);
        let places = places_of_tasks(lut, ids, all, 32);
        assert forall|t: u32, k: u32| #[trigger] places.contains((t, k)) <==> named(
            ids,
            structs,
            t,
            k,
        ) && lut[4 * t + k] != 0 by {
            if places.contains((t, k)) {
                let i = choose|i: int| 0 <= i < places.len() && places[i] == (t, k);
                assert(places[i].0 == t);
                lemma_structs_to_reset(structs, k);
            }
            if named(ids, structs, t, k) && lut[4 * t + k] != 0 {
                lemma_structs_to_reset(structs, k);
                assert(bit(ids, t) && bit(all, k));
            }
        }
        places
    }
}

/// Resetting makes the tasks that are named clean, and leaves the others and the rest of the
/// driver alone.
pub proof fn reset_tasks_are_clean(
    scif: &mut Scif,
    ids: u32,
    structs: u32,
    ops: Vec<Op>,
    others: u16,
)
    requires
        call_ensures(Scif::scif_reset_task_structs, (scif, ids, structs), ops),
        others & (ids as u16) == 0,
    ensures
        final(scif).bv_dirty_tasks & (ids as u16) == 0,
        final(scif).bv_dirty_tasks & others == old(scif).bv_dirty_tasks & others,
        final(scif).scif_data == old(scif).scif_data,
        final(scif).last_aux_ram_image == old(scif).last_aux_ram_image,
        final(scif).ready == old(scif).ready,
{
    let dirty = old(scif).bv_dirty_tasks;
    other_tasks_keep_their_state(ids, 0, dirty, others);
    assert((dirty & ((!ids) as u16)) & (ids as u16) == 0) by (bit_vector);
}

/// Whether the operations hand over a request: the tasks to start, to execute and to stop, and
/// the event, a falling edge, once the driver can be told that the request was taken.
pub open spec fn hands_over(ops: Seq<Op>, start: u16, execute: u16, stop: u16) -> bool {
    &&& ops.len() == 7
    &&& ops[0] == (Op::RequestTasks { request: TaskRequest::Initialize, tasks: start })
    &&& ops[1] == (Op::RequestTasks { request: TaskRequest::Execute, tasks: execute })
    &&& ops[2] == (Op::RequestTasks { request: TaskRequest::Terminate, tasks: stop })
    &&& ops[3] == Op::Unpend(Interrupt::UART1)
    &&& ops[4] == Op::Unmask(Interrupt::UART1)
    &&& ops[5] == (Op::Modify { addr: 0x400C_5000, clear: 0x40, set: 0 })
    &&& ops[6] == (Op::Modify { addr: 0x400C_5000, clear: 0x40, set: 0x40 })
}

/// The result of a request, and what became of the driver. To start a task that is active or
/// dirty is illegal. Otherwise the request has to wait for the one before, and otherwise it
/// succeeds, and the tasks that are started are dirty.
pub open spec fn is_answered(
    before: Scif,
    after: Scif,
    r: (SCIFResult, Vec<Op>),
    active: u16,
    start: u16,
    execute: u16,
    stop: u16,
) -> bool {
    if (active | before.bv_dirty_tasks) & start != 0 {
        r.0 == SCIFResult::IllegalOperation && r.1@.len() == 0 && after == before
    } else if !before.ready {
        r.0 == SCIFResult::NotReady && r.1@.len() == 0 && after == before
    } else {
        &&& r.0 == SCIFResult::Success
        &&& hands_over(r.1@, start, execute, stop)
        &&& after.bv_dirty_tasks == before.bv_dirty_tasks | start
        &&& !after.ready
        &&& after.scif_data == before.scif_data
        &&& after.last_aux_ram_image == before.last_aux_ram_image
    }
}

/// The tasks, where they are asked for.
pub open spec fn tasks_if(asked: bool, ids: u32) -> u16 {
    if asked {
        ids as u16
    } else {
        0
    }
}

/// Bits 0, 1 and 2 of a request ask to start, to execute and to stop the 16 tasks that are
/// named.
pub proof fn request_is_answered(
    scif: &mut Scif,
    ids: u32,
    req: u32,
    active: u16,
    r: (SCIFResult, Vec<Op>),
)
    requires
        call_ensures(Scif::scif_ctrl_tasks_nbl, (scif, ids, req, active), r),
    ensures
        is_answered(
            *old(scif),
            *final(scif),
            r,
            active,
            tasks_if(bit(req, 0), ids),
            tasks_if(bit(req, 1), ids),
            tasks_if(bit(req, 2), ids),
        ),
{
    powers_of_two();
    lemma_join_none(old(scif).bv_dirty_tasks);
    let busy = active | old(scif).bv_dirty_tasks;
    assert(busy & 0u16 == 0) by (bit_vector);
}

/// To execute tasks once is to start, to execute and to stop them.
pub proof fn single_execution_is_answered(
    scif: &mut Scif,
    ids: u16,
    active: u16,
    r: (SCIFResult, Vec<Op>),
)
    requires
        call_ensures(Scif::scif_execute_tasks_once_nbl, (scif, ids, active), r),
    ensures
        is_answered(*old(scif), *final(scif), r, active, ids, ids, ids),
{
    lemma_request_once(ids);
}

/// A task that was started cannot be started again.
pub proof fn started_task_is_not_started_again(
    first: &mut Scif,
    ids: u32,
    req: u32,
    active: u16,
    r: (SCIFResult, Vec<Op>),
    next: &mut Scif,
    next_ids: u32,
    next_req: u32,
    next_active: u16,
    s: (SCIFResult, Vec<Op>),
)
    requires
        call_ensures(Scif::scif_ctrl_tasks_nbl, (first, ids, req, active), r),
        *old(next) == *final(first),
        call_ensures(Scif::scif_ctrl_tasks_nbl, (next, next_ids, next_req, next_active), s),
        r.0 == SCIFResult::Success,
        bit(req, 0),
        bit(next_req, 0),
        (ids as u16) & (next_ids as u16) != 0,
    ensures
        s.0 == SCIFResult::IllegalOperation,
        *final(next) == *old(next),
{
    powers_of_two();
    started_task_is_busy(ids, req, old(first).bv_dirty_tasks, next_ids, next_req, next_active);
}

/// Tasks that were reset and are not active can be started, once the driver takes requests.
pub proof fn reset_tasks_are_started(
    first: &mut Scif,
    ids: u32,
    structs: u32,
    ops: Vec<Op>,
    next: &mut Scif,
    req: u32,
    active: u16,
    s: (SCIFResult, Vec<Op>),
)
    requires
        call_ensures(Scif::scif_reset_task_structs, (first, ids, structs), ops),
        *old(next) == *final(first),
        call_ensures(Scif::scif_ctrl_tasks_nbl, (next, ids, req, active), s),
        active & (ids as u16) == 0,
    ensures
        s.0 == if old(first).ready {
            SCIFResult::Success
        } else {
            SCIFResult::NotReady
        },
{
    reset_task_is_startable(ids, req, active, old(first).bv_dirty_tasks);
}

/// Whether the operations clear an event towards the MCU and wait until it is.
pub open spec fn clears(ops: Seq<Op>, event: u32) -> bool {
    &&& ops[0] == (Op::Write { addr: 0x400C_503C, value: event })
    &&& ops[1] == (Op::WaitClear { addr: 0x400C_500C, mask: event })
}

/// The source of the interrupt that tells readiness is event 0. Clearing it, in the handler
/// too, lets the driver take requests. The handler masks the interrupt.
pub proof fn readiness_is_taken(a: &mut Scif, b: &mut Scif, ops: Vec<Op>, handled: Vec<Op>)
    requires
        call_ensures(Scif::scif_clear_ready_int_source, (a,), ops),
        call_ensures(Scif::ready_handler, (b,), handled),
    ensures
        ops@.len() == 2,
        clears(ops@, 1),
        handled@.len() == 3,
        clears(handled@, 1),
        handled@[2] == Op::Mask(Interrupt::UART1),
        *final(a) == (Scif { ready: true, ..*old(a) }),
        *final(b) == (Scif { ready: true, ..*old(b) }),
{
}

/// The source of the interrupt that a task raises is event 1. The handler clears it and masks
/// the interrupt.
pub proof fn alert_is_taken(ops: Vec<Op>, handled: Vec<Op>)
    requires
        call_ensures(Scif::scif_clear_alert_int_source, (), ops),
        call_ensures(Scif::alert_handler, (), handled),
    ensures
        ops@.len() == 2,
        clears(ops@, 2),
        handled@.len() == 3,
        clears(handled@, 2),
        handled@[2] == Op::Mask(Interrupt::AON_EVENT),
{
}

} // verus!
