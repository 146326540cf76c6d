use stratum_client::{
    default_device,    next_handshake_action, open_channel, setup_mining_connection, DeviceInfo, EventError,
    HandshakeAction, HandshakeError, HandshakeStep, HeightWriter, JobEvent, Message, NewMiningJob,
    SetNewPrevHash, SetTarget, StratumConnectionHandler, StratumEventHandler, StratumJob,
    StratumSolutionHandler, WorkSolution, MAX_TARGET_NBITS, VERSION_MASK,
};

fn job_msg(block_height: u32, job_id: u32) -> NewMiningJob {
    NewMiningJob {
        channel_id: 3,
        job_id,
        block_height,
        merkle_root: [0x4d; 32],
        version: 2,
    }
}

fn prevhash_msg(block_height: u32) -> SetNewPrevHash {
    SetNewPrevHash {
        block_height,
        prev_hash: [0x50; 32],
        min_ntime: 1000,
        max_ntime_offset: 60,
        nbits: 0x1a2b3c4d,
    }
}

fn promote(handler: &mut StratumEventHandler, height: u32) -> StratumJob {
    match handler.accept(&Message::SetNewPrevHash(prevhash_msg(height))) {
        Ok(Some(JobEvent::NewJob(job))) => job,
        _ => panic!("no job promoted"),
    }
}

#[test]
fn end_to_end_job_target_and_submissions() {
    let mut handler = StratumEventHandler::new();
    assert!(matches!(handler.accept(&Message::NewMiningJob(job_msg(100, 5))), Ok(None)));
    let job = promote(&mut handler, 100);
    assert_eq!(job.id, 5);
    assert_eq!(job.channel_id, 3);
    assert_eq!(job.block_height, 100);
    assert_eq!(job.time(), 1000);
    assert_eq!(job.max_time(), 1060);
    assert_eq!(job.version(), 2);
    assert_eq!(job.bits(), 0x1a2b3c4d);
    assert_eq!(job.version_mask(), VERSION_MASK);
    assert_eq!(&job.previous_hash()[..], &[0x50u8; 32][..]);
    assert_eq!(&job.merkle_root()[..], &[0x4du8; 32][..]);
    assert!(job.is_valid());

    let target = SetTarget { channel_id: 3, max_target: [0x7f; 32] };
    match handler.accept(&Message::SetTarget(target)) {
        Ok(Some(JobEvent::ChangeTarget(t))) => assert_eq!(t, [0x7f; 32]),
        _ => panic!("target not forwarded"),
    }

    let mut submitter = StratumSolutionHandler::new();
    let solution = WorkSolution { job: job.clone(), nonce: 0xdead, time_offset: 7, version: 0x2000_0002 };
    let first = submitter.process_solution(&solution);
    assert_eq!(first.channel_id, 3);
    assert_eq!(first.seq_num, 0);
    assert_eq!(first.job_id, 5);
    assert_eq!(first.nonce, 0xdead);
    assert_eq!(first.ntime_offset, 7);
    assert_eq!(first.version, 0x2000_0002);
    let second = submitter.process_solution(&solution);
    assert_eq!(second.seq_num, 1);
}

#[test]
fn new_block_without_job_is_protocol_violation() {
    let mut handler = StratumEventHandler::new();
    let r = handler.accept(&Message::SetNewPrevHash(prevhash_msg(200)));
    assert!(matches!(r, Err(EventError::ProtocolViolation { block_height: 200 })));
    assert_eq!(handler.current_block_height.current(), 200);
}

#[test]
fn max_time_overflow_is_malformed() {
    let mut handler = StratumEventHandler::new();
    handler.visit_new_mining_job(&job_msg(10, 1));
    let mut p = prevhash_msg(10);
    p.min_ntime = u32::MAX - 10;
    let r = handler.visit_set_new_prev_hash(&p);
    assert!(matches!(r, Err(EventError::MalformedMessage { block_height: 10 })));
}

#[test]
fn max_time_at_the_limit_is_accepted() {
    let mut handler = StratumEventHandler::new();
    handler.visit_new_mining_job(&job_msg(10, 1));
    let mut p = prevhash_msg(10);
    p.min_ntime = u32::MAX - 60;
    let job = handler.visit_set_new_prev_hash(&p).ok().unwrap();
    assert_eq!(job.max_time(), u32::MAX);
}

#[test]
fn announce_then_confirm_promotes_once() {
    for h in [0u32, 1, 77, u32::MAX] {
        let mut handler = StratumEventHandler::new();
        handler.visit_new_mining_job(&job_msg(h, 9));
        let job = promote(&mut handler, h);
        assert_eq!(job.block_height, h);
        assert_eq!(job.id, 9);
        assert!(handler.new_jobs.is_empty());
        let again = handler.visit_set_new_prev_hash(&prevhash_msg(h));
        assert!(matches!(again, Err(EventError::ProtocolViolation { .. })));
    }
}

#[test]
fn stale_entries_are_purged_in_any_order() {
    let orders: [[u32; 4]; 3] = [[90, 95, 100, 110], [110, 100, 95, 90], [95, 110, 90, 100]];
    for order in orders {
        let mut handler = StratumEventHandler::new();
        for h in order {
            handler.visit_new_mining_job(&job_msg(h, h + 1));
        }
        let job = promote(&mut handler, 100);
        assert_eq!(job.id, 101);
        let mut left: Vec<u32> = handler.new_jobs.keys().copied().collect();
        left.sort();
        assert_eq!(left, vec![110]);
        assert!(matches!(
            handler.visit_set_new_prev_hash(&prevhash_msg(95)),
            Err(EventError::ProtocolViolation { block_height: 95 })
        ));
    }
}

#[test]
fn reannouncement_replaces_pending_job() {
    let mut handler = StratumEventHandler::new();
    handler.visit_new_mining_job(&job_msg(100, 5));
    let mut second = job_msg(100, 6);
    second.merkle_root = [0x11; 32];
    handler.visit_new_mining_job(&second);
    assert_eq!(handler.new_jobs.len(), 1);
    let job = promote(&mut handler, 100);
    assert_eq!(job.id, 6);
    assert_eq!(job.merkle_root, [0x11; 32]);
}

#[test]
fn other_messages_change_nothing() {
    let mut handler = StratumEventHandler::new();
    handler.visit_new_mining_job(&job_msg(100, 5));
    assert!(matches!(handler.accept(&Message::Other), Ok(None)));
    assert!(matches!(handler.accept(&Message::OpenChannelSuccess), Ok(None)));
    assert_eq!(handler.new_jobs.len(), 1);
    assert_eq!(handler.current_block_height.current(), 0);
}

#[test]
fn job_validity_follows_published_height() {
    let mut handler = StratumEventHandler::new();
    handler.visit_new_mining_job(&job_msg(100, 5));
    handler.visit_new_mining_job(&job_msg(101, 6));
    let old_job = promote(&mut handler, 100);
    assert!(old_job.is_valid());
    let dispatched = old_job.clone();
    let new_job = promote(&mut handler, 101);
    assert!(!old_job.is_valid());
    assert!(!dispatched.is_valid());
    assert!(new_job.is_valid());
    assert!(old_job.is_valid_at(100));
    assert!(old_job.is_valid_at(99));
    assert!(!old_job.is_valid_at(101));
}

#[test]
fn height_reader_sees_writer() {
    let mut writer = HeightWriter::new();
    let reader = writer.reader();
    assert_eq!(reader.current(), 0);
    writer.publish(42);
    assert_eq!(reader.current(), 42);
    assert_eq!(writer.current(), 42);
    writer.publish(7);
    assert_eq!(reader.current(), 7);
}

#[test]
fn sequence_numbers_wrap() {
    let mut handler = StratumEventHandler::new();
    handler.visit_new_mining_job(&job_msg(1, 2));
    let job = promote(&mut handler, 1);
    let mut submitter = StratumSolutionHandler::new();
    submitter.seq_num = u32::MAX - 1;
    let solution = WorkSolution { job, nonce: 1, time_offset: 0, version: 2 };
    let seqs: Vec<u32> = (0..4).map(|_| submitter.process_solution(&solution).seq_num).collect();
    assert_eq!(seqs, vec![u32::MAX - 1, u32::MAX, 0, 1]);
}

#[test]
fn sequence_numbers_follow_arrival_order() {
    let mut handler = StratumEventHandler::new();
    handler.visit_new_mining_job(&job_msg(1, 2));
    let job = promote(&mut handler, 1);
    let mut submitter = StratumSolutionHandler::new();
    for i in 0..10u32 {
        let solution = WorkSolution { job: job.clone(), nonce: 100 + i, time_offset: 0, version: 2 };
        let share = submitter.process_solution(&solution);
        assert_eq!(share.seq_num, i);
        assert_eq!(share.nonce, 100 + i);
    }
}

#[test]
fn handshake_accepts_two_successes() {
    assert_eq!(
        next_handshake_action(HandshakeStep::SetupConnection, &Message::SetupMiningConnectionSuccess),
        HandshakeAction::OpenChannel
    );
    assert_eq!(
        next_handshake_action(HandshakeStep::OpenChannel, &Message::OpenChannelSuccess),
        HandshakeAction::Established
    );
}

#[test]
fn handshake_rejects_errors_and_unknown_responses() {
    let setup_fail = HandshakeAction::Fail(HandshakeError::Rejected(HandshakeStep::SetupConnection));
    let open_fail = HandshakeAction::Fail(HandshakeError::Rejected(HandshakeStep::OpenChannel));
    for r in [Message::SetupMiningConnectionError, Message::Other, Message::OpenChannelSuccess] {
        assert_eq!(next_handshake_action(HandshakeStep::SetupConnection, &r), setup_fail);
    }
    for r in [Message::OpenChannelError, Message::Other, Message::SetupMiningConnectionSuccess] {
        assert_eq!(next_handshake_action(HandshakeStep::OpenChannel, &r), open_fail);
    }
    assert_eq!(
        StratumConnectionHandler::visit(HandshakeStep::OpenChannel, &Message::OpenChannelError),
        Err(HandshakeError::Rejected(HandshakeStep::OpenChannel))
    );
}

#[test]
fn connection_handler_is_pessimistic() {
    let mut handler = StratumConnectionHandler::new(HandshakeStep::SetupConnection);
    assert!(!handler.accepted);
    handler.accept(&Message::Other);
    assert!(!handler.accepted);
    handler.accept(&Message::SetupMiningConnectionSuccess);
    assert!(handler.accepted);
    handler.accept(&Message::SetupMiningConnectionError);
    assert!(!handler.accepted);
}

#[test]
fn handshake_requests() {
    let setup = setup_mining_connection("10.0.0.1:3336".to_string());
    assert_eq!(setup.protocol_version, 0);
    assert_eq!(setup.connection_url, "10.0.0.1:3336");
    assert_eq!(setup.required_extranonce_size, 0);
    let device = DeviceInfo {
        vendor: "Braiins".to_string(),
        hw_rev: "1".to_string(),
        fw_ver: "Braiins OS 2019-06-05".to_string(),
        dev_id: "xyz".to_string(),
    };
    assert_eq!(default_device(), device);
    let open = open_channel("worker".to_string());
    assert_eq!(open.user, "worker");
    assert_eq!(open.device, device);
    assert_eq!(open.max_target_nbits, MAX_TARGET_NBITS);
    assert_eq!(open.max_target_nbits, 0x1d00ffff);
    assert_eq!(open.req_id, 10);
    assert!(!open.extended);
    assert_eq!(open.nominal_hashrate, 1_000_000_000);
    assert_eq!(open.aggregated_device_count, 1);
}
