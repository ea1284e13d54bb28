use nexus_io::child::ChildState;
use nexus_io::child::Reason;
use nexus_io::nexus::DrEvent;
use nexus_io::nexus::Nexus;
use nexus_io::nexus::NexusStatus;
use nexus_io::request::nexus_submit_io;
use nexus_io::request::ChildIo;
use nexus_io::request::Dispatch;
use nexus_io::request::NexusBio;
use nexus_io::request::RetireRequest;
use nexus_io::retire::RetireAction;
use nexus_io::retire::RetireEvent;
use nexus_io::retire::RetirePhase;
use nexus_io::retire::Retirement;
use nexus_io::types::GenericStatusCode;
use nexus_io::types::IoStatus;
use nexus_io::types::IoType;

const CORE: u32 = 0;

fn mirror(ids: &[u64]) -> Nexus {
    let mut nexus = Nexus::new(String::from("nexus0"), 2);
    for id in ids {
        assert!(nexus.add_child(*id));
    }
    nexus.reconfigure(DrEvent::ChildRebuild);
    nexus
}

fn job(child: u64) -> Retirement {
    Retirement::new(RetireRequest { nexus: String::from("nexus0"), child })
}

/// Runs a retirement to its end; `destroyed` is whether the resource of the
/// child can be destroyed. Returns the last action.
fn run(job: &mut Retirement, nexus: &mut Nexus, destroyed: bool) -> RetireAction {
    let mut action = job.child_retire(Some(&mut *nexus), RetireEvent::Begin);
    loop {
        let event = match action {
            RetireAction::Pause => RetireEvent::Paused,
            RetireAction::Reconfigure(_) => RetireEvent::Reconfigured,
            RetireAction::Destroy(_) => RetireEvent::Destroyed(destroyed),
            RetireAction::Resume => RetireEvent::Resumed,
            RetireAction::Done(_) | RetireAction::Abandon => return action,
        };
        assert!(job.expects(event));
        action = job.child_retire(Some(&mut *nexus), event);
    }
}

/// Writes to every child of the nexus; `outcomes` says for each child, in
/// order, whether its operation succeeds. Returns the answer and the
/// retirements asked for.
fn write(nexus: &mut Nexus, outcomes: &[bool]) -> (Option<IoStatus>, Vec<RetireRequest>) {
    let mut io = NexusBio::nexus_bio_setup(nexus.name().clone(), IoType::Write, 0, CORE);
    let mut targets = Vec::new();
    let channel = io.inner_channel(nexus);
    let mut next = nexus_submit_io(&mut io, channel);
    while let Dispatch::Submit(child) = next {
        targets.push(child);
        next = io.submitted(0);
    }
    assert_eq!(next, Dispatch::Done { result: Ok(()), finalize: None });
    assert_eq!(targets.len(), outcomes.len());
    let mut answer = None;
    let mut retirements = Vec::new();
    for (child, success) in targets.iter().zip(outcomes) {
        assert!(answer.is_none());
        let status = if *success {
            GenericStatusCode::Success
        } else {
            GenericStatusCode::InternalDeviceError
        };
        let done = io.complete(ChildIo { child: *child, status }, *success, CORE);
        answer = done.finalize;
        if let Some(request) = done.retire {
            retirements.push(request);
        }
    }
    (answer, retirements)
}

#[test]
fn new_retirement_waits_for_its_start() {
    let job = job(11);
    assert_eq!(job.nexus(), "nexus0");
    assert_eq!(job.child(), 11);
    assert_eq!(job.phase(), RetirePhase::Start);
    assert!(job.expects(RetireEvent::Begin));
    assert!(!job.expects(RetireEvent::Paused));
    assert!(!job.expects(RetireEvent::Reconfigured));
    assert!(!job.expects(RetireEvent::Destroyed(true)));
    assert!(!job.expects(RetireEvent::Resumed));
}

#[test]
fn retirement_goes_through_its_steps_in_order() {
    let mut nexus = mirror(&[10, 11, 12]);
    let mut job = job(11);

    assert_eq!(job.child_retire(Some(&mut nexus), RetireEvent::Begin), RetireAction::Pause);
    assert_eq!(job.phase(), RetirePhase::Pausing);
    assert_eq!(nexus.child_state(1), ChildState::Faulted(Reason::IoError));
    assert!(!nexus.is_paused());
    assert_eq!(nexus.channel(0).writers(), &vec![10, 11, 12]);

    assert_eq!(
        job.child_retire(Some(&mut nexus), RetireEvent::Paused),
        RetireAction::Reconfigure(DrEvent::ChildFault)
    );
    assert_eq!(job.phase(), RetirePhase::Rebuilding);
    assert!(nexus.is_paused());
    assert_eq!(nexus.channel(0).writers(), &vec![10, 11, 12]);

    assert_eq!(
        job.child_retire(Some(&mut nexus), RetireEvent::Reconfigured),
        RetireAction::Destroy(11)
    );
    assert_eq!(job.phase(), RetirePhase::Destroying);
    for core in 0..2 {
        assert_eq!(nexus.channel(core).readers(), &vec![10, 12]);
        assert_eq!(nexus.channel(core).writers(), &vec![10, 12]);
    }
    assert_eq!(nexus.child_count(), 3);

    assert_eq!(
        job.child_retire(Some(&mut nexus), RetireEvent::Destroyed(true)),
        RetireAction::Resume
    );
    assert_eq!(job.phase(), RetirePhase::Resuming);
    assert_eq!(nexus.child_count(), 2);
    assert_eq!(nexus.child_lookup(11), None);
    assert!(nexus.is_paused());

    assert_eq!(
        job.child_retire(Some(&mut nexus), RetireEvent::Resumed),
        RetireAction::Done(NexusStatus::Online)
    );
    assert_eq!(job.phase(), RetirePhase::Finished);
    assert!(!nexus.is_paused());
    assert!(!job.expects(RetireEvent::Begin));
    assert!(!job.expects(RetireEvent::Resumed));
}

#[test]
fn child_that_cannot_be_destroyed_stays_faulted_and_out_of_the_channels() {
    let mut nexus = mirror(&[10, 11, 12]);
    let mut job = job(12);
    assert_eq!(run(&mut job, &mut nexus, false), RetireAction::Done(NexusStatus::Degraded));
    assert_eq!(nexus.child_count(), 3);
    assert_eq!(nexus.child_state(2), ChildState::Faulted(Reason::IoError));
    assert_eq!(nexus.channel(0).readers(), &vec![10, 11]);
    assert_eq!(nexus.channel(1).writers(), &vec![10, 11]);
    assert!(!nexus.is_paused());
}

#[test]
fn retirement_is_abandoned_if_the_nexus_is_gone() {
    let mut job = job(11);
    assert_eq!(job.child_retire(None, RetireEvent::Begin), RetireAction::Abandon);
    assert_eq!(job.phase(), RetirePhase::Finished);
}

#[test]
fn retirement_is_abandoned_if_the_nexus_goes_while_it_runs() {
    let mut nexus = mirror(&[10, 11]);
    let mut job = job(11);
    assert_eq!(job.child_retire(Some(&mut nexus), RetireEvent::Begin), RetireAction::Pause);
    assert_eq!(job.child_retire(None, RetireEvent::Paused), RetireAction::Abandon);
    assert_eq!(job.phase(), RetirePhase::Finished);
}

#[test]
fn retirement_is_abandoned_if_another_nexus_is_handed_in() {
    let mut other = Nexus::new(String::from("nexus1"), 1);
    other.add_child(11);
    let mut job = job(11);
    assert_eq!(job.child_retire(Some(&mut other), RetireEvent::Begin), RetireAction::Abandon);
    assert_eq!(other.child_state(0), ChildState::Open);
    assert_eq!(job.phase(), RetirePhase::Finished);
}

#[test]
fn retirement_is_abandoned_if_the_child_is_gone() {
    let mut nexus = mirror(&[10, 12]);
    let mut job = job(11);
    assert_eq!(job.child_retire(Some(&mut nexus), RetireEvent::Begin), RetireAction::Abandon);
    assert_eq!(job.phase(), RetirePhase::Finished);
    assert_eq!(nexus.status(), NexusStatus::Online);
    assert_eq!(nexus.child_count(), 2);
}

#[test]
fn retirement_is_abandoned_if_the_child_is_not_open() {
    let mut nexus = mirror(&[10, 11]);
    nexus.child_compare_and_swap(1, ChildState::Open, ChildState::Closed);
    let mut job = job(11);
    assert_eq!(job.child_retire(Some(&mut nexus), RetireEvent::Begin), RetireAction::Abandon);
    assert_eq!(nexus.child_state(1), ChildState::Closed);
}

#[test]
fn of_two_retirements_of_one_child_one_passes_and_the_other_abandons() {
    let mut nexus = mirror(&[10, 11, 12]);
    let mut first = job(11);
    let mut second = job(11);
    assert_eq!(first.child_retire(Some(&mut nexus), RetireEvent::Begin), RetireAction::Pause);
    assert_eq!(second.child_retire(Some(&mut nexus), RetireEvent::Begin), RetireAction::Abandon);
    assert_eq!(second.phase(), RetirePhase::Finished);
    assert_eq!(nexus.child_state(1), ChildState::Faulted(Reason::IoError));
    assert_eq!(first.child_retire(Some(&mut nexus), RetireEvent::Paused), RetireAction::Reconfigure(DrEvent::ChildFault));
    let mut third = job(11);
    assert_eq!(third.child_retire(Some(&mut nexus), RetireEvent::Begin), RetireAction::Abandon);
    assert!(nexus.is_paused());
}

#[test]
fn child_vanishing_before_its_destruction_does_not_stop_the_resume() {
    let mut nexus = mirror(&[10, 11]);
    let mut job = job(11);
    job.child_retire(Some(&mut nexus), RetireEvent::Begin);
    job.child_retire(Some(&mut nexus), RetireEvent::Paused);
    job.child_retire(Some(&mut nexus), RetireEvent::Reconfigured);
    nexus.remove_child(1);
    assert_eq!(
        job.child_retire(Some(&mut nexus), RetireEvent::Destroyed(true)),
        RetireAction::Resume
    );
    assert_eq!(nexus.child_count(), 1);
    assert_eq!(
        job.child_retire(Some(&mut nexus), RetireEvent::Resumed),
        RetireAction::Done(NexusStatus::Online)
    );
}

#[test]
fn three_replicas_one_device_error_request_succeeds_and_replica_is_retired() {
    let mut nexus = mirror(&[10, 11, 12]);
    let (answer, retirements) = write(&mut nexus, &[true, false, true]);
    assert_eq!(answer, Some(IoStatus::Success));
    assert_eq!(retirements, vec![RetireRequest { nexus: String::from("nexus0"), child: 11 }]);

    let mut job = Retirement::new(retirements[0].clone());
    assert_eq!(job.child_retire(Some(&mut nexus), RetireEvent::Begin), RetireAction::Pause);
    assert_eq!(nexus.child_state(1), ChildState::Faulted(Reason::IoError));
    assert_eq!(job.child_retire(Some(&mut nexus), RetireEvent::Paused), RetireAction::Reconfigure(DrEvent::ChildFault));
    assert_eq!(job.child_retire(Some(&mut nexus), RetireEvent::Reconfigured), RetireAction::Destroy(11));
    assert_eq!(nexus.channel(0).readers(), &vec![10, 12]);
    assert_eq!(nexus.channel(0).writers(), &vec![10, 12]);
    assert_eq!(job.child_retire(Some(&mut nexus), RetireEvent::Destroyed(true)), RetireAction::Resume);
    assert_eq!(
        job.child_retire(Some(&mut nexus), RetireEvent::Resumed),
        RetireAction::Done(NexusStatus::Online)
    );
    assert_eq!(nexus.status(), NexusStatus::Online);
    assert_eq!(nexus.child_count(), 2);

    let (answer, retirements) = write(&mut nexus, &[true, true]);
    assert_eq!(answer, Some(IoStatus::Success));
    assert!(retirements.is_empty());
}

#[test]
fn three_replicas_all_device_errors_request_fails_and_replicas_are_retired() {
    let mut nexus = mirror(&[10, 11, 12]);
    let (answer, retirements) = write(&mut nexus, &[false, false, false]);
    assert_eq!(answer, Some(IoStatus::Failed));
    assert_eq!(
        retirements,
        vec![
            RetireRequest { nexus: String::from("nexus0"), child: 10 },
            RetireRequest { nexus: String::from("nexus0"), child: 11 },
        ]
    );

    // the retirements start together: each passes the guard for its own
    // child, and a second one for the same child does not
    let mut jobs: Vec<Retirement> = retirements.iter().map(|r| Retirement::new(r.clone())).collect();
    for job in jobs.iter_mut() {
        assert_eq!(job.child_retire(Some(&mut nexus), RetireEvent::Begin), RetireAction::Pause);
    }
    let mut again = Retirement::new(retirements[0].clone());
    assert_eq!(again.child_retire(Some(&mut nexus), RetireEvent::Begin), RetireAction::Abandon);
    assert_eq!(nexus.status(), NexusStatus::Degraded);
    for job in jobs.iter_mut() {
        assert_eq!(job.child_retire(Some(&mut nexus), RetireEvent::Paused), RetireAction::Reconfigure(DrEvent::ChildFault));
        let child = job.child();
        assert_eq!(job.child_retire(Some(&mut nexus), RetireEvent::Reconfigured), RetireAction::Destroy(child));
        assert_eq!(job.child_retire(Some(&mut nexus), RetireEvent::Destroyed(true)), RetireAction::Resume);
    }
    assert_eq!(nexus.channel(0).writers(), &vec![12]);
    assert_eq!(jobs[0].child_retire(Some(&mut nexus), RetireEvent::Resumed), RetireAction::Done(NexusStatus::Online));
    assert_eq!(jobs[1].child_retire(Some(&mut nexus), RetireEvent::Resumed), RetireAction::Done(NexusStatus::Online));
    assert_eq!(nexus.child_count(), 1);

    // the last completion finished the request as failed and named no
    // child; once the last child is retired too, the nexus is faulted
    let mut last = job(12);
    assert_eq!(run(&mut last, &mut nexus, true), RetireAction::Done(NexusStatus::Faulted));
    assert_eq!(nexus.child_count(), 0);
    assert_eq!(nexus.status(), NexusStatus::Faulted);
    assert!(nexus.channel(0).readers().is_empty());
    assert!(nexus.channel(0).writers().is_empty());
}

#[test]
fn read_after_retirement_avoids_the_retired_replica() {
    let mut nexus = mirror(&[10, 11]);
    let mut job = job(11);
    assert_eq!(run(&mut job, &mut nexus, true), RetireAction::Done(NexusStatus::Online));
    for _ in 0..3 {
        let mut io = NexusBio::nexus_bio_setup(String::from("nexus0"), IoType::Read, 0, CORE);
        assert_eq!(nexus_submit_io(&mut io, nexus.channel_mut(0)), Dispatch::Submit(10));
    }
}

#[test]
fn request_finds_the_channel_it_was_admitted_on() {
    let mut nexus = mirror(&[10, 11, 12]);
    let on_first = NexusBio::nexus_bio_setup(String::from("nexus0"), IoType::Read, 0, 0);
    let on_second = NexusBio::nexus_bio_setup(String::from("nexus0"), IoType::Read, 1, 1);
    assert_eq!(on_first.inner_channel(&mut nexus).child_select(), Some(1));
    assert_eq!(on_first.inner_channel(&mut nexus).child_select(), Some(2));
    assert_eq!(on_second.inner_channel(&mut nexus).child_select(), Some(1));
    assert_eq!(on_first.inner_channel(&mut nexus).child_select(), Some(0));
    assert_eq!(on_second.read_channel_at_index(&nexus, 0), 10);
    assert_eq!(on_second.read_channel_at_index(&nexus, 1), 11);
    assert_eq!(on_first.read_channel_at_index(&nexus, 2), 12);
}
