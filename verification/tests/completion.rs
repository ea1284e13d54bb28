use nexus_io::channel::NexusChannelInner;
use nexus_io::child::Child;
use nexus_io::request::nexus_submit_io;
use nexus_io::request::ChildIo;
use nexus_io::request::Completion;
use nexus_io::request::Dispatch;
use nexus_io::request::NexusBio;
use nexus_io::request::RetireRequest;
use nexus_io::types::Disposition;
use nexus_io::types::GenericStatusCode;
use nexus_io::types::IoError;
use nexus_io::types::IoStatus;
use nexus_io::types::IoType;

const CORE: u32 = 3;

fn writers(ids: &[u64]) -> NexusChannelInner {
    let mut children = Vec::new();
    for id in ids {
        let mut child = Child::new(*id);
        child.open();
        children.push(child);
    }
    let mut channel = NexusChannelInner::new();
    channel.refresh(&children);
    channel
}

/// Dispatches `cmd` over `ids`; `codes` are the return codes of the
/// submissions, in order. Returns the request and the end of the dispatch.
fn dispatched(cmd: IoType, ids: &[u64], codes: &[i32]) -> (NexusBio, Dispatch) {
    let mut channel = writers(ids);
    let mut io = NexusBio::nexus_bio_setup(String::from("nexus0"), cmd, 0, CORE);
    let mut next = nexus_submit_io(&mut io, &mut channel);
    let mut replies = codes.iter();
    while let Dispatch::Submit(_) = next {
        next = io.submitted(*replies.next().unwrap());
    }
    assert!(replies.next().is_none());
    (io, next)
}

fn ok(child: u64) -> ChildIo {
    ChildIo { child, status: GenericStatusCode::Success }
}

fn broken(child: u64) -> ChildIo {
    ChildIo { child, status: GenericStatusCode::InternalDeviceError }
}

fn retire(child: u64) -> Option<RetireRequest> {
    Some(RetireRequest { nexus: String::from("nexus0"), child })
}

fn outcome(disposition: Disposition, finalize: Option<IoStatus>, retire: Option<RetireRequest>) -> Completion {
    Completion { disposition, finalize, retire }
}

#[test]
fn all_completions_succeed_request_succeeds_after_the_last() {
    let (mut io, end) = dispatched(IoType::Write, &[10, 11, 12], &[0, 0, 0]);
    assert_eq!(end, Dispatch::Done { result: Ok(()), finalize: None });
    let flying = outcome(Disposition::Flying(IoStatus::Success), None, None);
    assert_eq!(io.complete(ok(10), true, CORE), flying);
    assert_eq!(io.ctx().in_flight, 2);
    assert_eq!(io.ctx().num_ok, 1);
    assert_eq!(io.complete(ok(11), true, CORE), flying);
    assert_eq!(io.ctx().in_flight, 1);
    assert_eq!(
        io.complete(ok(12), true, CORE),
        outcome(Disposition::Complete(IoStatus::Success), Some(IoStatus::Success), None)
    );
    assert_eq!(io.ctx().in_flight, 0);
    assert_eq!(io.ctx().num_ok, 3);
    assert_eq!(io.ctx().status, IoStatus::Pending);
}

#[test]
fn one_failure_in_the_middle_retires_that_child_and_request_succeeds() {
    let (mut io, _) = dispatched(IoType::Write, &[10, 11, 12], &[0, 0, 0]);
    assert_eq!(
        io.complete(ok(10), true, CORE),
        outcome(Disposition::Flying(IoStatus::Success), None, None)
    );
    assert_eq!(
        io.complete(broken(11), false, CORE),
        outcome(Disposition::Retire(IoStatus::Pending), None, retire(11))
    );
    assert_eq!(io.ctx().status, IoStatus::Pending);
    assert_eq!(io.ctx().in_flight, 1);
    assert_eq!(io.ctx().num_ok, 1);
    assert_eq!(
        io.complete(ok(12), true, CORE),
        outcome(Disposition::Complete(IoStatus::Success), Some(IoStatus::Success), None)
    );
}

#[test]
fn one_failure_first_retires_that_child_and_request_succeeds() {
    let (mut io, _) = dispatched(IoType::Unmap, &[10, 11], &[0, 0]);
    assert_eq!(
        io.complete(broken(10), false, CORE),
        outcome(Disposition::Retire(IoStatus::Pending), None, retire(10))
    );
    assert_eq!(
        io.complete(ok(11), true, CORE),
        outcome(Disposition::Complete(IoStatus::Success), Some(IoStatus::Success), None)
    );
}

#[test]
fn one_failure_last_retires_that_child_and_request_succeeds() {
    let (mut io, _) = dispatched(IoType::Write, &[10, 11, 12], &[0, 0, 0]);
    io.complete(ok(10), true, CORE);
    io.complete(ok(11), true, CORE);
    assert_eq!(
        io.complete(broken(12), false, CORE),
        outcome(Disposition::Retire(IoStatus::Success), Some(IoStatus::Success), retire(12))
    );
    assert_eq!(io.ctx().in_flight, 0);
    assert_eq!(io.ctx().num_ok, 2);
    assert_eq!(io.ctx().status, IoStatus::Failed);
}

#[test]
fn every_completion_fails_request_fails_after_the_last() {
    let (mut io, _) = dispatched(IoType::Write, &[10, 11, 12], &[0, 0, 0]);
    assert_eq!(
        io.complete(broken(10), false, CORE),
        outcome(Disposition::Retire(IoStatus::Pending), None, retire(10))
    );
    assert_eq!(
        io.complete(broken(11), false, CORE),
        outcome(Disposition::Retire(IoStatus::Pending), None, retire(11))
    );
    assert_eq!(
        io.complete(broken(12), false, CORE),
        outcome(Disposition::Complete(IoStatus::Failed), Some(IoStatus::Failed), None)
    );
    assert_eq!(io.ctx().in_flight, 0);
    assert_eq!(io.ctx().num_ok, 0);
}

#[test]
fn single_write_that_fails_fails_the_request_without_retirement() {
    let (mut io, _) = dispatched(IoType::Write, &[10], &[0]);
    assert_eq!(
        io.complete(broken(10), false, CORE),
        outcome(Disposition::Complete(IoStatus::Failed), Some(IoStatus::Failed), None)
    );
}

#[test]
fn failed_read_fails_the_request_without_trying_another_reader() {
    let (mut io, end) = dispatched(IoType::Read, &[10, 11], &[0]);
    assert_eq!(end, Dispatch::Done { result: Ok(()), finalize: None });
    assert_eq!(io.ctx().in_flight, 1);
    assert_eq!(
        io.complete(broken(11), false, CORE),
        outcome(Disposition::Complete(IoStatus::Failed), Some(IoStatus::Failed), None)
    );
}

#[test]
fn successful_read_succeeds() {
    let (mut io, _) = dispatched(IoType::Read, &[10, 11], &[0]);
    assert_eq!(
        io.complete(ok(11), true, CORE),
        outcome(Disposition::Complete(IoStatus::Success), Some(IoStatus::Success), None)
    );
}

#[test]
fn child_that_turned_the_operation_down_is_not_retired() {
    let (mut io, _) = dispatched(IoType::WriteZeros, &[10, 11], &[0, 0]);
    let refused = ChildIo { child: 10, status: GenericStatusCode::InvalidOpcode };
    assert_eq!(
        io.complete(refused, false, CORE),
        outcome(Disposition::Retire(IoStatus::Pending), None, None)
    );
    assert_eq!(io.ctx().status, IoStatus::Pending);
    let refused = ChildIo { child: 11, status: GenericStatusCode::InvalidOpcode };
    assert_eq!(
        io.complete(refused, false, CORE),
        outcome(Disposition::Complete(IoStatus::Failed), Some(IoStatus::Failed), None)
    );
}

#[test]
fn try_retire_names_nexus_and_child_unless_the_opcode_was_invalid() {
    let io = NexusBio::nexus_bio_setup(String::from("nexus0"), IoType::Write, 0, CORE);
    for status in [
        GenericStatusCode::Success,
        GenericStatusCode::InvalidFieldInCommand,
        GenericStatusCode::DataTransferError,
        GenericStatusCode::AbortedPowerLoss,
        GenericStatusCode::InternalDeviceError,
        GenericStatusCode::AbortedByRequest,
        GenericStatusCode::CapacityExceeded,
        GenericStatusCode::NamespaceNotReady,
        GenericStatusCode::Reserved,
    ] {
        assert_eq!(io.try_retire(&ChildIo { child: 4, status }), retire(4));
    }
    assert_eq!(io.try_retire(&ChildIo { child: 4, status: GenericStatusCode::InvalidOpcode }), None);
}

#[test]
fn out_of_memory_after_one_acceptance_finishes_as_no_memory_on_completion() {
    let (mut io, end) = dispatched(IoType::Write, &[10, 11], &[0, -12]);
    assert_eq!(end, Dispatch::Done { result: Err(IoError::ResourceExhausted), finalize: None });
    assert_eq!(io.ctx().in_flight, 1);
    assert_eq!(io.ctx().status, IoStatus::NoMemory);
    assert_eq!(
        io.complete(ok(10), true, CORE),
        outcome(Disposition::Complete(IoStatus::NoMemory), Some(IoStatus::NoMemory), None)
    );
    assert_eq!(io.ctx().in_flight, 0);
}

#[test]
fn out_of_memory_after_one_acceptance_finishes_as_failed_if_that_one_fails() {
    let (mut io, _) = dispatched(IoType::Write, &[10, 11], &[0, -12]);
    assert_eq!(
        io.complete(broken(10), false, CORE),
        outcome(Disposition::Complete(IoStatus::Failed), Some(IoStatus::Failed), None)
    );
}

#[test]
fn other_rejection_after_acceptances_retires_and_goes_on() {
    let (mut io, end) = dispatched(IoType::Write, &[10, 11, 12], &[0, 0, -22]);
    assert_eq!(end, Dispatch::Done { result: Err(IoError::InvalidArgument), finalize: None });
    assert_eq!(io.ctx().status, IoStatus::Failed);
    assert_eq!(
        io.complete(broken(10), false, CORE),
        outcome(Disposition::Retire(IoStatus::Pending), None, retire(10))
    );
    assert_eq!(io.ctx().status, IoStatus::Pending);
    assert_eq!(
        io.complete(ok(11), true, CORE),
        outcome(Disposition::Complete(IoStatus::Success), Some(IoStatus::Success), None)
    );
}

#[test]
fn success_while_out_of_memory_with_more_in_flight_is_inconsistent() {
    let (mut io, end) = dispatched(IoType::Write, &[10, 11, 12], &[0, 0, -12]);
    assert_eq!(end, Dispatch::Done { result: Err(IoError::ResourceExhausted), finalize: None });
    assert_eq!(io.ctx().in_flight, 2);
    assert_eq!(
        io.complete(ok(10), true, CORE),
        outcome(Disposition::Inconsistent, Some(IoStatus::Failed), None)
    );
    assert_eq!(io.ctx().in_flight, 1);
    assert_eq!(io.ctx().status, IoStatus::NoMemory);
    assert_eq!(
        io.complete(ok(11), true, CORE),
        outcome(Disposition::Complete(IoStatus::NoMemory), Some(IoStatus::NoMemory), None)
    );
}

#[test]
fn failure_while_out_of_memory_with_more_in_flight_retires_and_goes_on() {
    let (mut io, _) = dispatched(IoType::Write, &[10, 11, 12], &[0, 0, -12]);
    assert_eq!(
        io.complete(broken(10), false, CORE),
        outcome(Disposition::Retire(IoStatus::Pending), None, retire(10))
    );
    assert_eq!(
        io.complete(ok(11), true, CORE),
        outcome(Disposition::Complete(IoStatus::Success), Some(IoStatus::Success), None)
    );
}

#[test]
fn request_is_answered_by_the_last_completion_only() {
    for k in 1..6usize {
        for pattern in 0..(1u32 << k) {
            let ids: Vec<u64> = (0..k as u64).collect();
            let codes = vec![0; k];
            let (mut io, _) = dispatched(IoType::Write, &ids, &codes);
            let mut answers = 0;
            let mut successes = 0;
            for i in 0..k {
                let success = pattern & (1 << i) != 0;
                if success {
                    successes += 1;
                }
                let done = io.complete(broken(i as u64), success, CORE);
                if done.finalize.is_some() {
                    answers += 1;
                    assert_eq!(i, k - 1);
                    let expected = if successes > 0 { IoStatus::Success } else { IoStatus::Failed };
                    assert_eq!(done.finalize, Some(expected));
                }
                assert_eq!(io.disposition(), io.ctx().disposition());
            }
            assert_eq!(answers, 1);
            assert_eq!(io.ctx().in_flight, 0);
            assert_eq!(io.ctx().num_ok, successes);
        }
    }
}
