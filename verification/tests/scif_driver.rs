use embassy_ti_cc2650::chip::Interrupt;
use embassy_ti_cc2650::hw::{modified, Call, Op, TaskRequest};
use embassy_ti_cc2650::scif_driver::{
    SCIFData, SCIFResult, SCIFTaskStructType, Scif, AUXIOMODE_INPUT, AUXIOMODE_OUTPUT,
};

/// Describes a task data structure.
fn info(addr: u32, count: u32, size: u32) -> u32 {
    addr | count << 12 | size << 20
}

const IMAGE: &[u16] = &[1, 2, 3, 4, 5];
const SAME_IMAGE: &[u16] = &[1, 2, 3, 4, 5];
const OTHER_IMAGE: &[u16] = &[1, 2, 3, 4, 6];
const OFFSETS: &[u8] = &[0, 4, 8, 12, 16, 20, 24, 28, 32, 36];

fn setup(image: &'static [u16], infos: Vec<u32>) -> SCIFData {
    SCIFData {
        aux_ram_image: image,
        task_data_struct_info_lut: infos.leak(),
        aux_io_index_to_mcu_iocfg_offset_lut: OFFSETS,
    }
}

fn started(infos: Vec<u32>) -> Scif {
    let mut scif = Scif::new();
    assert_eq!(scif.scif_init(0, setup(IMAGE, infos), 0).0, SCIFResult::Success);
    scif
}

fn ready(infos: Vec<u32>) -> Scif {
    let mut scif = started(infos);
    scif.ready_handler();
    scif
}

#[test]
fn struct_types_are_numbered() {
    assert_eq!(SCIFTaskStructType::SCIFStructCfg.index(), 0);
    assert_eq!(SCIFTaskStructType::SCIFStructInput.index(), 1);
    assert_eq!(SCIFTaskStructType::SCIFStructOutput.index(), 2);
    assert_eq!(SCIFTaskStructType::SCIFStructState.index(), 3);
}

#[test]
fn start_of_the_sensor_controller() {
    let mut scif = Scif::new();
    let (result, ops) = scif.scif_init(!0x4, setup(IMAGE, vec![]), 0x0003);
    assert_eq!(result, SCIFResult::Success);
    assert_eq!(
        ops,
        vec![
            Op::Call(Call::AuxWucClockEnable { clocks: 0xFF }),
            Op::Call(Call::AuxWucFreezeDisable),
            Op::UploadAuxRamImage { words: 5 },
            Op::InitTaskResources,
            Op::Write { addr: 0x400C_5000, value: 0x202B },
            Op::Write { addr: 0x400C_5004, value: 0x2B0B },
            Op::Write { addr: 0x400E_1000, value: 0x100 },
            Op::Write { addr: 0x400C_5034, value: 0 },
            Op::Write { addr: 0x400C_5018, value: 1 },
            Op::Call(Call::AuxWucPowerCtrl { mode: 2 }),
            Op::Read { addr: 0x400C_6048 },
            Op::Call(Call::AonWucAuxImageValid),
            Op::Call(Call::SysCtrlAonSync),
            Op::Unpend(Interrupt::UART1),
            Op::Unmask(Interrupt::UART1),
            Op::Unpend(Interrupt::AON_EVENT),
            Op::Unmask(Interrupt::AON_EVENT),
        ]
    );
    assert_eq!(scif.bv_dirty_tasks, 3);
    assert_eq!(scif.scif_data().aux_ram_image, IMAGE);
    assert!(!scif.ready);
}

#[test]
fn a_running_sensor_controller_is_not_started() {
    let mut scif = Scif::new();
    let (result, ops) = scif.scif_init(0x4, setup(IMAGE, vec![]), 3);
    assert_eq!(result, SCIFResult::IllegalOperation);
    assert_eq!(ops, vec![]);
    assert!(scif.scif_data.is_none());
    assert_eq!(scif.bv_dirty_tasks, 0);
}

#[test]
fn an_image_is_uploaded_once() {
    let upload = |ops: &Vec<Op>| ops.contains(&Op::UploadAuxRamImage { words: 5 });
    let mut scif = Scif::new();
    assert!(upload(&scif.scif_init(0, setup(IMAGE, vec![]), 0).1));
    assert!(!upload(&scif.scif_init(0, setup(SAME_IMAGE, vec![]), 0).1));
    assert!(upload(&scif.scif_init(0, setup(OTHER_IMAGE, vec![]), 0).1));
    assert!(upload(&scif.scif_init(0, setup(IMAGE, vec![]), 0).1));
}

#[test]
fn an_io_of_the_first_controller() {
    let scif = started(vec![]);
    assert_eq!(
        scif.scif_init_io(3, AUXIOMODE_INPUT, 1, 0),
        vec![
            Op::Modify { addr: 0x400C_1004, clear: 0xC0, set: 0x0040_0040 },
            Op::Modify { addr: 0x400C_1000, clear: 0x08, set: 0 },
            Op::Modify { addr: 0x400C_1018, clear: 0x08, set: 0x08 },
            Op::Read { addr: 0x400C_1018 },
            Op::Write { addr: 0x4008_100C, value: 0x4008 },
        ]
    );
}

#[test]
fn an_io_of_the_second_controller() {
    let scif = started(vec![]);
    assert_eq!(
        scif.scif_init_io(9, AUXIOMODE_OUTPUT, -1, 1),
        vec![
            Op::Modify { addr: 0x400C_2004, clear: 0x0C, set: 0 },
            Op::Modify { addr: 0x400C_2000, clear: 0x02, set: 0x02 },
            Op::Modify { addr: 0x400C_2018, clear: 0x02, set: 0 },
            Op::Read { addr: 0x400C_2018 },
            Op::Write { addr: 0x4008_1024, value: 0x6008 },
        ]
    );
}

#[test]
fn an_io_is_pulled_down() {
    let scif = started(vec![]);
    assert_eq!(
        scif.scif_reinit_io(0, 0),
        vec![Op::Write { addr: 0x4008_1000, value: 0x2008 }]
    );
}

#[test]
fn the_mode_of_the_other_ios_is_kept() {
    let scif = started(vec![]);
    match scif.scif_init_io(3, AUXIOMODE_INPUT, 1, 0)[0] {
        Op::Modify { clear, set, .. } => {
            assert_eq!(modified(0xFFFF, clear, set) & 0xFFFF, 0xFF7F);
            assert_eq!(modified(0x0000, clear, set) & 0xFFFF, 0x0040);
        }
        _ => panic!("the mode comes first"),
    }
}

#[test]
fn an_io_changes_its_own_bits_alone() {
    let scif = started(vec![]);
    let ops = scif.scif_init_io(9, 0x0001_0003, 0, 1);
    let after = |op: Op, held: u32| match op {
        Op::Modify { clear, set, .. } => modified(held, clear, set),
        _ => panic!("a setting is modified"),
    };
    assert_eq!(after(ops[0], 0x0000) & 0xFFFF, 0x000C);
    assert_eq!(after(ops[0], 0xFFFF) & 0xFFFF, 0xFFFF);
    for op in [ops[1], ops[2]] {
        assert_eq!(after(op, 0x00), 0x02);
        assert_eq!(after(op, 0xFD), 0xFF);
    }
    let ops = scif.scif_init_io(9, 0x0000_0002, 0, 0);
    assert_eq!(after(ops[0], 0xFFFF) & 0xFFFF, 0xFFFB);
    for op in [ops[1], ops[2]] {
        assert_eq!(after(op, 0xFF), 0xFD);
    }
}

#[test]
fn a_structure_is_reset() {
    let infos = vec![0, info(0x100, 1, 4), 0, info(0x200, 1, 2)];
    let mut scif = ready(infos);
    scif.bv_dirty_tasks = 0b11;
    assert_eq!(
        scif.scif_reset_task_structs(0b01, 0b0010),
        vec![
            Op::CopyToAuxRam { offset: 0x100, len: 8 },
            Op::CopyToAuxRam { offset: 0x200, len: 4 },
        ]
    );
    assert_eq!(scif.bv_dirty_tasks, 0b10);
}

#[test]
fn the_state_structure_is_reset_always() {
    let mut scif = ready(vec![info(0x10, 1, 1), 0, 0, info(0x200, 1, 2)]);
    assert_eq!(
        scif.scif_reset_task_structs(1, 0),
        vec![Op::CopyToAuxRam { offset: 0x200, len: 4 }]
    );
}

#[test]
fn a_structure_with_many_buffers_is_reset_with_its_control_variables() {
    let mut scif = ready(vec![0, 0, info(0x100, 3, 4), 0]);
    assert_eq!(
        scif.scif_reset_task_structs(1, 0b0100),
        vec![Op::CopyToAuxRam { offset: 0xFA, len: 30 }]
    );
}

#[test]
fn structures_of_every_named_task_are_reset() {
    let mut infos = vec![0; 12];
    infos[4 + 3] = info(0x40, 1, 1);
    infos[8 + 3] = info(0x80, 1, 1);
    let mut scif = ready(infos);
    scif.bv_dirty_tasks = 0b1111;
    assert_eq!(
        scif.scif_reset_task_structs(0b110, 0),
        vec![
            Op::CopyToAuxRam { offset: 0x40, len: 2 },
            Op::CopyToAuxRam { offset: 0x80, len: 2 },
        ]
    );
    assert_eq!(scif.bv_dirty_tasks, 0b1001);
    assert_eq!(scif.scif_reset_task_structs(0, 0b1111), vec![]);
}

#[test]
fn each_named_task_has_all_its_structures_reset() {
    let mut infos = vec![0; 16];
    infos[1] = info(0x10, 1, 1);
    infos[3] = info(0x20, 1, 1);
    infos[12 + 1] = info(0x30, 1, 1);
    infos[12 + 2] = info(0x38, 1, 1);
    infos[12 + 3] = info(0x40, 2, 1);
    let mut scif = ready(infos);
    assert!(scif.can_reset_task_structs(0b1001, 0b0010));
    assert_eq!(
        scif.scif_reset_task_structs(0b1001, 0b0010),
        vec![
            Op::CopyToAuxRam { offset: 0x10, len: 2 },
            Op::CopyToAuxRam { offset: 0x20, len: 2 },
            Op::CopyToAuxRam { offset: 0x30, len: 2 },
            Op::CopyToAuxRam { offset: 0x3A, len: 10 },
        ]
    );
}

#[test]
fn resets_can_be_asked_about() {
    let scif = started(vec![0, info(0x100, 3, 4), info(0x005, 2, 1), info(0x200, 1, 2)]);
    assert!(scif.can_reset_task_structs(0b01, 0b0000));
    assert!(scif.can_reset_task_structs(0b01, 0b1011));
    // No room for the control variables in front.
    assert!(!scif.can_reset_task_structs(0b01, 0b0100));
    // Not in the table.
    assert!(!scif.can_reset_task_structs(0b10, 0b0000));
    assert!(!scif.can_reset_task_structs(0b11, 0b0000));
    assert!(!scif.can_reset_task_structs(0b01, 0b10000));
    assert!(scif.can_reset_task_structs(0, 0b10000));
    assert!(!Scif::new().can_reset_task_structs(1, 0));
    // Longer than 16 bits can tell.
    let scif = started(vec![0, 0, 0, info(0x200, 0xFF, 0xFFF)]);
    assert!(!scif.can_reset_task_structs(1, 0));
}

#[test]
fn tasks_are_executed_once() {
    let mut scif = ready(vec![]);
    let (result, ops) = scif.scif_execute_tasks_once_nbl(0b101, 0b010);
    assert_eq!(result, SCIFResult::Success);
    assert_eq!(
        ops,
        vec![
            Op::RequestTasks { request: TaskRequest::Initialize, tasks: 0b101 },
            Op::RequestTasks { request: TaskRequest::Execute, tasks: 0b101 },
            Op::RequestTasks { request: TaskRequest::Terminate, tasks: 0b101 },
            Op::Unpend(Interrupt::UART1),
            Op::Unmask(Interrupt::UART1),
            Op::Modify { addr: 0x400C_5000, clear: 0x40, set: 0 },
            Op::Modify { addr: 0x400C_5000, clear: 0x40, set: 0x40 },
        ]
    );
    assert!(!scif.ready);
    assert_eq!(scif.bv_dirty_tasks, 0b101);
}

#[test]
fn requests_name_their_kinds() {
    let mut scif = ready(vec![]);
    let (result, ops) = scif.scif_ctrl_tasks_nbl(0b1, 0x04, 0b1);
    assert_eq!(result, SCIFResult::Success);
    assert_eq!(ops[0], Op::RequestTasks { request: TaskRequest::Initialize, tasks: 0 });
    assert_eq!(ops[1], Op::RequestTasks { request: TaskRequest::Execute, tasks: 0 });
    assert_eq!(ops[2], Op::RequestTasks { request: TaskRequest::Terminate, tasks: 1 });
    assert_eq!(scif.bv_dirty_tasks, 0);
}

#[test]
fn active_and_dirty_tasks_are_not_started() {
    let mut scif = ready(vec![0; 4]);
    assert_eq!(
        scif.scif_execute_tasks_once_nbl(0b1, 0b1),
        (SCIFResult::IllegalOperation, vec![])
    );
    assert_eq!(scif.scif_execute_tasks_once_nbl(0b1, 0).0, SCIFResult::Success);
    scif.ready_handler();
    assert_eq!(
        scif.scif_execute_tasks_once_nbl(0b1, 0),
        (SCIFResult::IllegalOperation, vec![])
    );
    scif.scif_reset_task_structs(0b1, 0);
    assert_eq!(scif.scif_execute_tasks_once_nbl(0b1, 0).0, SCIFResult::Success);
}

#[test]
fn one_request_at_a_time() {
    let mut scif = started(vec![]);
    assert_eq!(scif.scif_execute_tasks_once_nbl(0b1, 0), (SCIFResult::NotReady, vec![]));
    assert_eq!(scif.bv_dirty_tasks, 0);
    scif.ready_handler();
    assert_eq!(scif.scif_execute_tasks_once_nbl(0b1, 0).0, SCIFResult::Success);
    assert_eq!(scif.scif_execute_tasks_once_nbl(0b10, 0), (SCIFResult::NotReady, vec![]));
}

#[test]
fn interrupts_of_the_sensor_controller() {
    let mut scif = Scif::new();
    assert_eq!(
        scif.ready_handler(),
        vec![
            Op::Write { addr: 0x400C_503C, value: 1 },
            Op::WaitClear { addr: 0x400C_500C, mask: 1 },
            Op::Mask(Interrupt::UART1),
        ]
    );
    assert!(scif.ready);
    assert_eq!(
        Scif::alert_handler(),
        vec![
            Op::Write { addr: 0x400C_503C, value: 2 },
            Op::WaitClear { addr: 0x400C_500C, mask: 2 },
            Op::Mask(Interrupt::AON_EVENT),
        ]
    );
}
