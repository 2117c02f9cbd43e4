use threshold_decryption::pairing_cryptography_service::{
    AbsorbOutcome, DecryptionRound, PairingCryptographyService,
};
use threshold_decryption::worker::{DecryptionServer, WorkerOutcome};

const NOW: u64 = 1_700_000_000;

/// Builds a coordinator for 3 workers at threshold 1 and provisions every
/// worker with its key-sync payload.
fn provisioned_cluster() -> (PairingCryptographyService, Vec<DecryptionServer>) {
    let mut service = match PairingCryptographyService::new(3, 1) {
        Ok(s) => s,
        Err(e) => panic!("{}", e.message()),
    };
    let payloads = service.propagate_keys();
    assert_eq!(payloads.len(), 3);
    let mut workers: Vec<DecryptionServer> = Vec::new();
    for id in 0..3usize {
        let mut worker = DecryptionServer::new(id);
        let out = worker.consume(&payloads[id], NOW);
        assert!(matches!(out, WorkerOutcome::KeysSynced));
        assert!(worker.is_provisioned());
        workers.push(worker);
    }
    (service, workers)
}

/// Publishes the framed request to the given workers and collects their
/// partials into the round.
fn collect_from(
    round: &mut DecryptionRound,
    workers: &mut [DecryptionServer],
    ids: &[usize],
    wire: &Vec<u8>,
) {
    for &id in ids {
        match workers[id].consume(wire, NOW) {
            WorkerOutcome::SharePublished(partial) => {
                round.absorb(&partial);
            },
            other => panic!("worker {} did not publish: {:?}", id, outcome_name(&other)),
        }
    }
}

fn outcome_name(out: &WorkerOutcome) -> &'static str {
    match out {
        WorkerOutcome::KeysSynced => "KeysSynced",
        WorkerOutcome::SharePublished(_) => "SharePublished",
        WorkerOutcome::BadSignature => "BadSignature",
        WorkerOutcome::StaleTimestamp => "StaleTimestamp",
        WorkerOutcome::MalformedMessage => "MalformedMessage",
        WorkerOutcome::UnprovisionedWorker => "UnprovisionedWorker",
    }
}

fn decrypt_with(
    service: &PairingCryptographyService,
    workers: &mut [DecryptionServer],
    ids: &[usize],
    ciphertext: Vec<u8>,
) -> Result<Vec<u8>, String> {
    let (mut round, wire) = match service.begin_decrypt(ciphertext, NOW) {
        Ok(started) => started,
        Err(e) => return Err(e.message()),
    };
    collect_from(&mut round, workers, ids, &wire);
    service.complete_decryption(round).map_err(|e| e.message())
}

#[test]
fn generate_succeeds_exactly_on_valid_parameters() {
    assert!(PairingCryptographyService::new(3, 1).is_ok());
    assert!(PairingCryptographyService::new(2, 1).is_ok());
    let too_few = PairingCryptographyService::new(1, 1);
    match too_few {
        Err(e) => assert_eq!(
            e.message(),
            "Unable to initialize instance. Number of servers must be greater by one to the threshold."
        ),
        Ok(_) => panic!("n <= t must be rejected"),
    }
    let zero_threshold = PairingCryptographyService::new(3, 0);
    match zero_threshold {
        Err(e) => assert_eq!(
            e.message(),
            "Unable to initialize instance. Threshold must be at least one."
        ),
        Ok(_) => panic!("t < 1 must be rejected"),
    }
}

#[test]
fn round_trip_returns_hello_world() {
    let (service, mut workers) = provisioned_cluster();
    let ciphertext = service.encrypt_message(String::from("Hello, World!")).unwrap();
    let plain = decrypt_with(&service, &mut workers, &[0, 1], ciphertext).unwrap();
    assert_eq!(String::from_utf8(plain).unwrap(), "Hello, World!");
}

#[test]
fn round_trip_returns_empty_string() {
    let (service, mut workers) = provisioned_cluster();
    let ciphertext = service.encrypt_message(String::from("")).unwrap();
    let plain = decrypt_with(&service, &mut workers, &[1, 2], ciphertext).unwrap();
    assert_eq!(String::from_utf8(plain).unwrap(), "");
}

#[test]
fn every_large_enough_subset_recovers_the_plaintext() {
    let (service, mut workers) = provisioned_cluster();
    let message = "subset test";
    let ciphertext = service.encrypt_message(String::from(message)).unwrap();
    let subsets: [&[usize]; 4] = [&[0, 1], &[0, 2], &[1, 2], &[0, 1, 2]];
    for ids in subsets {
        let plain = decrypt_with(&service, &mut workers, ids, ciphertext.clone()).unwrap();
        assert_eq!(String::from_utf8(plain).unwrap(), message);
    }
}

#[test]
fn too_small_subsets_never_recover_the_plaintext() {
    let (service, mut workers) = provisioned_cluster();
    let message = "kept secret";
    let ciphertext = service.encrypt_message(String::from(message)).unwrap();
    let subsets: [&[usize]; 3] = [&[0], &[1], &[2]];
    for ids in subsets {
        match decrypt_with(&service, &mut workers, ids, ciphertext.clone()) {
            Err(_) => {},
            Ok(plain) => assert_ne!(plain, message.as_bytes().to_vec()),
        }
    }
}

#[test]
fn two_sequential_decryptions_agree() {
    let (service, mut workers) = provisioned_cluster();
    let ciphertext = service.encrypt_message(String::from("again and again")).unwrap();
    let first = decrypt_with(&service, &mut workers, &[0, 1], ciphertext.clone()).unwrap();
    let second = decrypt_with(&service, &mut workers, &[0, 1], ciphertext).unwrap();
    assert_eq!(first, second);
}

#[test]
fn second_key_sync_is_a_no_op() {
    let mut service = PairingCryptographyService::new(3, 1).unwrap();
    let payloads = service.propagate_keys();
    let mut worker = DecryptionServer::new(0);
    assert!(matches!(worker.consume(&payloads[0], NOW), WorkerOutcome::KeysSynced));
    // A provisioned worker never re-provisions: the repeated payload fails
    // the signature check and is dropped.
    let out = worker.consume(&payloads[0], NOW);
    assert!(!matches!(out, WorkerOutcome::KeysSynced));
    assert!(worker.is_provisioned());
    // The worker still serves requests exactly as before.
    let ciphertext = service.encrypt_message(String::from("still fine")).unwrap();
    let (mut round, wire) = service.begin_decrypt(ciphertext, NOW).unwrap();
    collect_from(&mut round, std::slice::from_mut(&mut worker), &[0], &wire);
    // And a second propagation hands out nothing.
    assert_eq!(service.propagate_keys().len(), 0);
}

#[test]
fn exactly_threshold_plus_one_workers_suffice() {
    let (service, mut workers) = provisioned_cluster();
    let ciphertext = service.encrypt_message(String::from("two are enough")).unwrap();
    let (mut round, wire) = service.begin_decrypt(ciphertext, NOW).unwrap();
    collect_from(&mut round, &mut workers, &[0, 1], &wire);
    assert!(round.has_enough());
    assert!(round.deadline_outcome().is_ok());
    let plain = service.complete_decryption(round).unwrap();
    assert_eq!(String::from_utf8(plain).unwrap(), "two are enough");
}

#[test]
fn exactly_threshold_workers_time_out() {
    let (service, mut workers) = provisioned_cluster();
    let ciphertext = service.encrypt_message(String::from("not enough")).unwrap();
    let (mut round, wire) = service.begin_decrypt(ciphertext, NOW).unwrap();
    // Two of the three workers are paused before delivery; only worker 2
    // answers, one short of threshold + 1.
    collect_from(&mut round, &mut workers, &[2], &wire);
    assert!(!round.has_enough());
    match round.deadline_outcome() {
        Err(e) => assert!(e.message().contains("Not enough available Decryption Servers.")),
        Ok(()) => panic!("threshold many shares must not suffice"),
    }
}

#[test]
fn stale_request_is_dropped_and_decryption_times_out() {
    let (service, mut workers) = provisioned_cluster();
    let ciphertext = service.encrypt_message(String::from("too late")).unwrap();
    // The request was stamped eleven seconds before the workers' clock.
    let (round, wire) = service.begin_decrypt(ciphertext, NOW - 11).unwrap();
    for worker in workers.iter_mut() {
        let out = worker.consume(&wire, NOW);
        assert!(matches!(out, WorkerOutcome::StaleTimestamp));
    }
    assert!(round.deadline_outcome().is_err());
}

#[test]
fn boundary_age_request_is_still_fresh() {
    let (service, mut workers) = provisioned_cluster();
    let ciphertext = service.encrypt_message(String::from("just in time")).unwrap();
    // Ten seconds old is the last accepted age.
    let (mut round, wire) = service.begin_decrypt(ciphertext, NOW - 10).unwrap();
    collect_from(&mut round, &mut workers, &[0, 1], &wire);
    let plain = service.complete_decryption(round).unwrap();
    assert_eq!(String::from_utf8(plain).unwrap(), "just in time");
}

#[test]
fn unprovisioned_worker_drops_ciphertexts() {
    let (service, _workers) = provisioned_cluster();
    let ciphertext = service.encrypt_message(String::from("early")).unwrap();
    let (round, wire) = service.begin_decrypt(ciphertext, NOW).unwrap();
    let mut fresh_worker = DecryptionServer::new(7);
    let out = fresh_worker.consume(&wire, NOW);
    assert!(!matches!(out, WorkerOutcome::SharePublished(_)));
    assert!(!fresh_worker.is_provisioned());
    assert!(round.deadline_outcome().is_err());
}

#[test]
fn malformed_partials_are_discarded_and_collection_continues() {
    let (service, mut workers) = provisioned_cluster();
    let ciphertext = service.encrypt_message(String::from("Hello, World!")).unwrap();
    let (mut round, wire) = service.begin_decrypt(ciphertext, NOW).unwrap();
    let noise_short = vec![0xde, 0xad, 0xbe];
    assert!(matches!(round.absorb(&noise_short), AbsorbOutcome::Malformed));
    let noise_long: Vec<u8> = (0..40u8).map(|b| b.wrapping_mul(97)).collect();
    assert!(matches!(round.absorb(&noise_long), AbsorbOutcome::Malformed));
    collect_from(&mut round, &mut workers, &[0, 2], &wire);
    let plain = service.complete_decryption(round).unwrap();
    assert_eq!(String::from_utf8(plain).unwrap(), "Hello, World!");
}

#[test]
fn duplicate_partials_do_not_inflate_the_count() {
    let (service, mut workers) = provisioned_cluster();
    let ciphertext = service.encrypt_message(String::from("no double counting")).unwrap();
    let (mut round, wire) = service.begin_decrypt(ciphertext, NOW).unwrap();
    let partial = match workers[0].consume(&wire, NOW) {
        WorkerOutcome::SharePublished(p) => p,
        _ => panic!("worker 0 must publish"),
    };
    assert!(matches!(round.absorb(&partial), AbsorbOutcome::Accepted));
    assert!(matches!(round.absorb(&partial), AbsorbOutcome::Replaced));
    assert!(matches!(round.absorb(&partial), AbsorbOutcome::Replaced));
    assert!(!round.has_enough());
    assert!(round.deadline_outcome().is_err());
}

#[test]
fn tampered_requests_are_rejected_by_workers() {
    let (service, mut workers) = provisioned_cluster();
    let ciphertext = service.encrypt_message(String::from("genuine")).unwrap();
    let (_round, wire) = service.begin_decrypt(ciphertext, NOW).unwrap();
    let mut tampered = wire.clone();
    let last = tampered.len() - 1;
    tampered[last] ^= 0x01;
    let out = workers[0].consume(&tampered, NOW);
    assert!(matches!(out, WorkerOutcome::BadSignature));
    let mut truncated = wire.clone();
    truncated.truncate(10);
    let out = workers[0].consume(&truncated, NOW);
    assert!(matches!(out, WorkerOutcome::MalformedMessage));
}
