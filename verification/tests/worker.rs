use swmon::command::{BackgroundError, Request};
use swmon::display::{MonitorInfo, TableDisplayInfo};
use swmon::input_source::InputSource;
use swmon::worker::{
    collect_display_info, do_switch, RegisterWrite, SwitchError, Worker, WorkerAction,
    INPUT_SELECT_REGISTER,
};

fn info(id: &str) -> MonitorInfo {
    MonitorInfo::new("i2c-dev".to_string(), id.to_string())
}

#[test]
fn collect_keeps_every_monitor_whose_probe_succeeded() {
    let probed = vec![Some(info("a")), Some(info("b"))];
    let rows = collect_display_info(&probed);
    assert_eq!(
        rows,
        vec![TableDisplayInfo::new(0, info("a")), TableDisplayInfo::new(1, info("b"))]
    );
}

#[test]
fn collect_drops_failed_probes_and_keeps_the_numbers() {
    let probed = vec![None, Some(info("b")), None, Some(info("d")), None];
    let rows = collect_display_info(&probed);
    assert_eq!(
        rows,
        vec![TableDisplayInfo::new(1, info("b")), TableDisplayInfo::new(3, info("d"))]
    );
}

#[test]
fn collect_of_nothing_is_empty() {
    assert_eq!(collect_display_info(&Vec::new()), Vec::new());
    assert_eq!(collect_display_info(&vec![None, None]), Vec::new());
}

#[test]
fn collect_counts_numbers_in_eight_bits() {
    let probed: Vec<Option<MonitorInfo>> = (0..258).map(|i| Some(info(&format!("m{}", i)))).collect();
    let rows = collect_display_info(&probed);
    assert_eq!(rows.len(), 258);
    assert_eq!(rows[255].number, 255);
    assert_eq!(rows[256].number, 0);
    assert_eq!(rows[257].number, 1);
    assert_eq!(rows[257].info.id, "m257");
}

#[test]
fn switch_writes_the_input_select_register() {
    assert_eq!(INPUT_SELECT_REGISTER, 0x60);
    assert_eq!(
        do_switch(4, 3, InputSource::Hdmi1),
        Ok(RegisterWrite { position: 3, register: 0x60, value: 17 })
    );
    assert_eq!(
        do_switch(1, 0, InputSource::Vga1),
        Ok(RegisterWrite { position: 0, register: 0x60, value: 1 })
    );
    assert_eq!(
        do_switch(1000, 255, InputSource::DisplayPort2),
        Ok(RegisterWrite { position: 255, register: 0x60, value: 16 })
    );
}

#[test]
fn switch_refuses_a_number_out_of_range() {
    assert_eq!(do_switch(3, 3, InputSource::Hdmi1), Err(SwitchError::MonitorGone { monitor: 3 }));
    assert_eq!(do_switch(0, 0, InputSource::Hdmi1), Err(SwitchError::MonitorGone { monitor: 0 }));
    assert_eq!(
        do_switch(2, 255, InputSource::Dvi2),
        Err(SwitchError::MonitorGone { monitor: 255 })
    );
}

#[test]
fn switch_error_messages() {
    assert_eq!(
        SwitchError::MonitorGone { monitor: 7 }.message(),
        "monitor number 7 out of range"
    );
    assert_eq!(
        SwitchError::MonitorGone { monitor: 255 }.message(),
        "monitor number 255 out of range"
    );
    assert_eq!(SwitchError::WriteFailed { cause: "NACK".to_string() }.message(), "NACK");
    assert_eq!(
        SwitchError::WriteFailed { cause: "NACK".to_string() }.into_background(),
        BackgroundError { msg: "NACK".to_string() }
    );
}

#[test]
fn worker_always_undertakes_detection() {
    let mut worker = Worker::new();
    assert!(!worker.has_enumerated());
    assert!(!worker.holds(0));
    assert_eq!(worker.on_command(Request::Detect), WorkerAction::Enumerate);
    worker.on_enumerated(&vec![Some(info("a"))]);
    assert_eq!(worker.on_command(Request::Detect), WorkerAction::Enumerate);
}

#[test]
fn worker_stops_on_a_switch_before_any_detection() {
    let worker = Worker::new();
    assert_eq!(
        worker.on_command(Request::Switch { monitor: 0, input: InputSource::Hdmi1 }),
        WorkerAction::Terminate
    );
}

#[test]
fn worker_holds_the_monitors_whose_probe_succeeded() {
    let mut worker = Worker::new();
    let reply = worker.on_enumerated(&vec![Some(info("a")), None, Some(info("c"))]);
    assert!(worker.has_enumerated());
    assert!(worker.holds(0));
    assert!(!worker.holds(1));
    assert!(worker.holds(2));
    assert!(!worker.holds(3));
    assert!(!worker.holds(255));
    assert_eq!(reply, vec![TableDisplayInfo::new(0, info("a")), TableDisplayInfo::new(2, info("c"))]);
    assert_eq!(
        worker.on_command(Request::Switch { monitor: 2, input: InputSource::Dvi1 }),
        WorkerAction::Write(RegisterWrite { position: 2, register: 0x60, value: 3 })
    );
}

#[test]
fn worker_refuses_a_monitor_whose_probe_failed() {
    let mut worker = Worker::new();
    let reply = worker.on_enumerated(&vec![None, Some(info("b"))]);
    assert_eq!(reply, vec![TableDisplayInfo::new(1, info("b"))]);
    assert_eq!(
        worker.on_command(Request::Switch { monitor: 0, input: InputSource::Vga1 }),
        WorkerAction::Refuse(BackgroundError { msg: "monitor number 0 out of range".to_string() })
    );
    assert_eq!(
        worker.on_command(Request::Switch { monitor: 1, input: InputSource::Vga1 }),
        WorkerAction::Write(RegisterWrite { position: 1, register: 0x60, value: 1 })
    );
    assert_eq!(worker.on_command(Request::Detect), WorkerAction::Enumerate);
}

#[test]
fn worker_forgets_a_monitor_that_fails_the_next_probe() {
    let mut worker = Worker::new();
    worker.on_enumerated(&vec![Some(info("a")), Some(info("b"))]);
    assert!(worker.holds(0));
    worker.on_enumerated(&vec![None, Some(info("b"))]);
    assert!(!worker.holds(0));
    assert!(worker.holds(1));
    assert_eq!(
        worker.on_command(Request::Switch { monitor: 0, input: InputSource::Hdmi2 }),
        WorkerAction::Refuse(BackgroundError { msg: "monitor number 0 out of range".to_string() })
    );
}

#[test]
fn worker_writes_exactly_for_the_numbers_it_reported() {
    let probed: Vec<Option<MonitorInfo>> =
        (0..256).map(|i| if i % 3 == 0 { None } else { Some(info(&format!("m{}", i))) }).collect();
    let mut worker = Worker::new();
    let reply = worker.on_enumerated(&probed);
    for monitor in 0..=255u8 {
        let reported = reply.iter().any(|row| row.number == monitor);
        let action = worker.on_command(Request::Switch { monitor, input: InputSource::Hdmi1 });
        assert_eq!(matches!(action, WorkerAction::Write(_)), reported);
        assert_eq!(matches!(action, WorkerAction::Refuse(_)), !reported);
        assert_eq!(worker.holds(monitor), reported);
    }
}

#[test]
fn worker_refuses_a_monitor_that_is_gone() {
    let mut worker = Worker::new();
    worker.on_enumerated(&vec![Some(info("a")), Some(info("b"))]);
    assert_eq!(
        worker.on_command(Request::Switch { monitor: 3, input: InputSource::Hdmi1 }),
        WorkerAction::Refuse(BackgroundError { msg: "monitor number 3 out of range".to_string() })
    );
    worker.on_enumerated(&Vec::new());
    assert!(worker.has_enumerated());
    assert!(!worker.holds(0));
    assert_eq!(
        worker.on_command(Request::Switch { monitor: 0, input: InputSource::Hdmi1 }),
        WorkerAction::Refuse(BackgroundError { msg: "monitor number 0 out of range".to_string() })
    );
}

#[test]
fn worker_answers_a_switch_with_the_outcome_of_the_write() {
    assert_eq!(Worker::on_written(Ok(())), Ok(()));
    assert_eq!(
        Worker::on_written(Err("NACK".to_string())),
        Err(BackgroundError { msg: "NACK".to_string() })
    );
}

#[test]
fn requests_describe_themselves() {
    assert_eq!(Request::Detect.describe(), "DetectMonitors");
    assert_eq!(
        Request::Switch { monitor: 3, input: InputSource::Hdmi1 }.describe(),
        "SwitchMonitor (3, Hdmi1)"
    );
    assert_eq!(
        Request::Switch { monitor: 250, input: InputSource::DisplayPort2 }.describe(),
        "SwitchMonitor (250, DisplayPort2)"
    );
}
