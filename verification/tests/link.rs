use std::sync::mpsc;
use swmon::command::{BackgroundError, Request};
use swmon::coordinator::Phase;
use swmon::display::{MonitorInfo, TableDisplayInfo};
use swmon::input_source::InputSource;
use swmon::link::{Cmd, WorkerLink};
use swmon::worker::{Worker, WorkerAction};

const FATAL: &str = "The monitor worker stopped responding. Close and restart to fix.";

fn info(id: &str) -> MonitorInfo {
    MonitorInfo::new("i2c-dev".to_string(), id.to_string())
}

fn batch(numbers: &[u8]) -> Vec<TableDisplayInfo> {
    numbers.iter().map(|n| TableDisplayInfo::new(*n, info(&format!("m{}", n)))).collect()
}

fn only_command(commands: &mpsc::Receiver<Cmd>) -> Cmd {
    let cmd = commands.try_recv().expect("one command");
    assert!(commands.try_recv().is_err());
    cmd
}

fn ready_link(numbers: &[u8]) -> (WorkerLink, mpsc::Receiver<Cmd>) {
    let (sender, commands) = mpsc::channel();
    let mut link = WorkerLink::start(sender);
    assert!(only_command(&commands).answer_detection(batch(numbers)));
    link.poll();
    assert_eq!(link.coordinator().phase(), Phase::Ready);
    (link, commands)
}

#[test]
fn link_start_hands_one_detection_to_the_worker() {
    let (sender, commands) = mpsc::channel();
    let link = WorkerLink::start(sender);
    let cmd = only_command(&commands);
    assert_eq!(cmd.request(), Request::Detect);
    assert_eq!(cmd.describe(), "DetectMonitors");
    assert!(matches!(cmd, Cmd::DetectMonitors(_)));
    assert_eq!(
        link.coordinator().phase(),
        Phase::WaitingForDetection { just_switched: false, long_detect: false }
    );
}

#[test]
fn link_detection_of_two_monitors_makes_ready() {
    let (sender, commands) = mpsc::channel();
    let mut link = WorkerLink::start(sender);
    let mut worker = Worker::new();
    let cmd = only_command(&commands);
    assert_eq!(worker.on_command(cmd.request()), WorkerAction::Enumerate);
    let reply = worker.on_enumerated(&vec![Some(info("a")), Some(info("b"))]);
    assert_eq!(reply.len(), 2);
    assert!(cmd.answer_detection(reply));
    link.poll();
    assert_eq!(link.coordinator().phase(), Phase::Ready);
    let selection = link.coordinator().selection().unwrap();
    assert_eq!(selection.monitor_select(), 0);
    assert_eq!(selection.input_select(), InputSource::Vga1);
    assert_eq!(selection.displays(), &vec![
        TableDisplayInfo::new(0, info("a")),
        TableDisplayInfo::new(1, info("b")),
    ]);
    assert!(commands.try_recv().is_err());
    link.poll();
    assert!(commands.try_recv().is_err());
    assert_eq!(link.coordinator().phase(), Phase::Ready);
}

#[test]
fn link_poll_without_reply_sends_nothing() {
    let (sender, commands) = mpsc::channel();
    let mut link = WorkerLink::start(sender);
    let cmd = only_command(&commands);
    for _ in 0..10 {
        link.poll();
        assert!(commands.try_recv().is_err());
        assert_eq!(
            link.coordinator().phase(),
            Phase::WaitingForDetection { just_switched: false, long_detect: false }
        );
    }
    assert!(cmd.answer_detection(batch(&[0])));
    link.poll();
    assert_eq!(link.coordinator().phase(), Phase::Ready);
}

#[test]
fn link_detection_of_no_monitor_is_retried() {
    let (sender, commands) = mpsc::channel();
    let mut link = WorkerLink::start(sender);
    for _ in 0..5 {
        let cmd = only_command(&commands);
        assert_eq!(cmd.request(), Request::Detect);
        assert!(cmd.answer_detection(Vec::new()));
        link.poll();
        assert_eq!(
            link.coordinator().phase(),
            Phase::WaitingForDetection { just_switched: false, long_detect: true }
        );
    }
    let cmd = only_command(&commands);
    assert!(cmd.answer_detection(batch(&[2])));
    link.poll();
    assert_eq!(link.coordinator().phase(), Phase::Ready);
    assert!(link.coordinator().errors().is_empty());
}

#[test]
fn link_failed_switch_leaves_a_message_and_detects() {
    let (mut link, commands) = ready_link(&[0, 1, 2, 3]);
    assert!(link.select_monitor(3));
    assert!(link.select_input(InputSource::Hdmi1));
    assert!(link.activate_switch());
    assert_eq!(link.coordinator().phase(), Phase::WaitingForSwitch);
    let cmd = only_command(&commands);
    assert_eq!(cmd.request(), Request::Switch { monitor: 3, input: InputSource::Hdmi1 });
    assert_eq!(cmd.describe(), "SwitchMonitor (3, Hdmi1)");
    assert!(cmd.answer_switch(Worker::on_written(Err("NACK".to_string()))));
    link.poll();
    assert_eq!(
        link.coordinator().phase(),
        Phase::WaitingForDetection { just_switched: true, long_detect: false }
    );
    assert_eq!(
        link.coordinator().current_error(),
        Some(&"Error switching monitor NACK".to_string())
    );
    assert_eq!(link.coordinator().errors().len(), 1);
    let cmd = only_command(&commands);
    assert_eq!(cmd.request(), Request::Detect);
    assert!(link.acknowledge_error());
    assert!(link.coordinator().errors().is_empty());
}

#[test]
fn link_successful_switch_is_followed_by_one_detection() {
    let (mut link, commands) = ready_link(&[0]);
    assert!(link.activate_switch());
    assert!(!link.activate_switch());
    let cmd = only_command(&commands);
    assert!(cmd.answer_switch(Ok(())));
    link.poll();
    assert_eq!(
        link.coordinator().phase(),
        Phase::WaitingForDetection { just_switched: true, long_detect: false }
    );
    let cmd = only_command(&commands);
    assert_eq!(cmd.request(), Request::Detect);
    assert!(cmd.answer_detection(batch(&[0])));
    link.poll();
    assert_eq!(link.coordinator().phase(), Phase::Ready);
    assert!(link.coordinator().errors().is_empty());
}

#[test]
fn link_dropped_reply_sender_is_fatal() {
    let (sender, commands) = mpsc::channel();
    let mut link = WorkerLink::start(sender);
    let cmd = only_command(&commands);
    match cmd {
        Cmd::DetectMonitors(slot) => drop(slot),
        Cmd::SwitchMonitor(_, _, _) => panic!("a detection was expected"),
    }
    link.poll();
    assert_eq!(link.coordinator().current_error(), Some(&FATAL.to_string()));
    assert_eq!(
        link.coordinator().phase(),
        Phase::WaitingForDetection { just_switched: false, long_detect: false }
    );
    assert!(commands.try_recv().is_err());
    assert!(!link.activate_switch());
    link.poll();
    assert!(commands.try_recv().is_err());
}

#[test]
fn link_switch_reply_sender_dropped() {
    let (mut link, commands) = ready_link(&[0]);
    assert!(link.activate_switch());
    drop(only_command(&commands));
    link.poll();
    assert_eq!(link.coordinator().phase(), Phase::WaitingForSwitch);
    assert_eq!(link.coordinator().current_error(), Some(&FATAL.to_string()));
    assert!(commands.try_recv().is_err());
}

#[test]
fn link_reports_a_command_that_cannot_be_sent() {
    let (sender, commands) = mpsc::channel();
    drop(commands);
    let link = WorkerLink::start(sender);
    assert_eq!(
        link.coordinator().current_error(),
        Some(&"Error sending request DetectMonitors".to_string())
    );
    assert_eq!(
        link.coordinator().phase(),
        Phase::WaitingForDetection { just_switched: false, long_detect: false }
    );
}

#[test]
fn link_answers_fit_their_command_only() {
    let (sender, commands) = mpsc::channel();
    let _link = WorkerLink::start(sender);
    let cmd = only_command(&commands);
    assert!(!cmd.answer_switch(Ok(())));
    let (mut link, commands) = ready_link(&[0]);
    assert!(link.activate_switch());
    let cmd = only_command(&commands);
    assert!(!cmd.answer_detection(batch(&[0])));
    link.poll();
    assert_eq!(link.coordinator().current_error(), Some(&FATAL.to_string()));
}

#[test]
fn link_answer_is_not_taken_once_the_coordinator_is_gone() {
    let (sender, commands) = mpsc::channel();
    let link = WorkerLink::start(sender);
    let cmd = only_command(&commands);
    drop(link);
    assert!(!cmd.answer_detection(batch(&[0])));
}

#[test]
fn link_failure_reply_carries_the_message() {
    let (mut link, commands) = ready_link(&[0]);
    assert!(link.activate_switch());
    let mut worker = Worker::new();
    worker.on_enumerated(&vec![Some(info("a"))]);
    let cmd = only_command(&commands);
    let action = worker.on_command(Request::Switch { monitor: 9, input: InputSource::Vga1 });
    match action {
        WorkerAction::Refuse(error) => {
            assert_eq!(error, BackgroundError { msg: "monitor number 9 out of range".to_string() });
            assert!(cmd.answer_switch(Err(error)));
        }
        _ => panic!("a refusal was expected"),
    }
    link.poll();
    assert_eq!(
        link.coordinator().current_error(),
        Some(&"Error switching monitor monitor number 9 out of range".to_string())
    );
}
