use solrand::base;
use solrand::error::ErrorCode;
use solrand::fee;
use solrand::key::Key;
use solrand::requester::Requester;

fn key(b: u8) -> Key {
    Key::new([b; 32])
}

fn authority() -> Key {
    key(1)
}

fn oracle() -> Key {
    key(2)
}

fn record() -> Requester {
    let ctx = base::Initialize { authority: authority(), oracle: oracle() };
    base::initialize(&ctx, 254, 7, 1000)
}

fn request(r: Requester, caller: Key, named: Key) -> base::RequestRandom {
    base::RequestRandom { requester: r, requester_key: key(9), authority: caller, oracle: named }
}

fn publish(r: Requester, caller: Key) -> base::PublishRandom {
    base::PublishRandom { requester: r, requester_key: key(9), oracle: caller }
}

fn payload() -> ([u8; 64], [u8; 32], [u8; 32]) {
    let mut random = [0u8; 64];
    for (i, b) in random.iter_mut().enumerate() {
        *b = i as u8;
    }
    (random, [0xAAu8; 32], [0x55u8; 32])
}

#[test]
fn key_equality_compares_every_byte() {
    let mut b = [3u8; 32];
    assert!(Key::new(b) == Key::new(b));
    b[31] = 4;
    assert!(!Key::new([3u8; 32]).same_as(&Key::new(b)));
    assert!(Key::new([3u8; 32]) != Key::new(b));
}

#[test]
fn initialize_sets_fresh_record() {
    let r = record();
    assert_eq!(r.authority, authority());
    assert_eq!(r.oracle, oracle());
    assert_eq!(r.count, 0);
    assert!(!r.active_request);
    assert_eq!(r.created_at, 1000);
    assert_eq!(r.last_updated, 1000);
    assert_eq!(r.uuid, 7);
    assert_eq!(r.bump, 254);
    assert_eq!(r.random, [0u8; 64]);
    assert_eq!(r.pkt_id, [0u8; 32]);
    assert_eq!(r.tls_id, [0u8; 32]);
}

#[test]
fn scenario_request_publish_then_second_publish_fails() {
    let mut req = request(record(), authority(), oracle());
    let ev = base::request_random(&mut req, 1010).unwrap();
    assert_eq!(ev.requester, key(9));
    assert!(req.requester.active_request);
    assert_eq!(req.requester.count, 1);
    assert_eq!(req.requester.last_updated, 1010);

    let (random, pkt_id, tls_id) = payload();
    let mut pub_ctx = publish(req.requester, oracle());
    let ev = base::publish_random(&mut pub_ctx, random, pkt_id, tls_id, 1020).unwrap();
    assert_eq!(ev.requester, key(9));
    assert!(!pub_ctx.requester.active_request);
    assert_eq!(pub_ctx.requester.random, random);
    assert_eq!(pub_ctx.requester.pkt_id, pkt_id);
    assert_eq!(pub_ctx.requester.tls_id, tls_id);
    assert_eq!(pub_ctx.requester.last_updated, 1020);
    assert_eq!(pub_ctx.requester.count, 1);

    let before = pub_ctx.requester;
    let r = base::publish_random(&mut pub_ctx, [7u8; 64], [7u8; 32], [7u8; 32], 1030);
    assert_eq!(r.unwrap_err(), ErrorCode::AlreadyCompleted);
    assert_eq!(pub_ctx.requester.random, before.random);
    assert_eq!(pub_ctx.requester.last_updated, 1020);
}

#[test]
fn scenario_second_request_while_pending_fails() {
    let mut req = request(record(), authority(), oracle());
    base::request_random(&mut req, 1010).unwrap();
    let r = base::request_random(&mut req, 1011);
    assert_eq!(r.unwrap_err(), ErrorCode::InflightRequest);
    assert_eq!(req.requester.count, 1);
    assert!(req.requester.active_request);
    assert_eq!(req.requester.last_updated, 1010);
}

#[test]
fn scenario_transfer_locked_then_allowed_then_old_authority_refused() {
    let mut req = request(record(), authority(), oracle());
    base::request_random(&mut req, 1010).unwrap();

    let mut t = base::TransferAuthority {
        requester: req.requester,
        authority: authority(),
        new_authority: key(3),
    };
    assert_eq!(base::transfer_authority(&mut t).unwrap_err(), ErrorCode::RequesterLocked);
    assert_eq!(t.requester.authority, authority());

    let (random, pkt_id, tls_id) = payload();
    let mut p = publish(t.requester, oracle());
    base::publish_random(&mut p, random, pkt_id, tls_id, 1020).unwrap();

    t.requester = p.requester;
    assert_eq!(base::transfer_authority(&mut t), Ok(()));
    assert_eq!(t.requester.authority, key(3));

    let mut again = request(t.requester, authority(), oracle());
    assert_eq!(base::request_random(&mut again, 1030).unwrap_err(), ErrorCode::Unauthorized);
    assert_eq!(again.requester.count, 1);

    let mut by_new = request(t.requester, key(3), oracle());
    base::request_random(&mut by_new, 1031).unwrap();
    assert_eq!(by_new.requester.count, 2);
}

#[test]
fn publish_without_request_fails() {
    let (random, pkt_id, tls_id) = payload();
    let mut p = publish(record(), oracle());
    let r = base::publish_random(&mut p, random, pkt_id, tls_id, 1020);
    assert_eq!(r.unwrap_err(), ErrorCode::AlreadyCompleted);
    assert_eq!(p.requester.random, [0u8; 64]);
}

#[test]
fn request_by_stranger_is_unauthorized_in_both_states() {
    let mut idle = request(record(), key(5), oracle());
    assert_eq!(base::request_random(&mut idle, 1).unwrap_err(), ErrorCode::Unauthorized);
    let mut req = request(record(), authority(), oracle());
    base::request_random(&mut req, 2).unwrap();
    let mut pending = request(req.requester, key(5), key(6));
    assert_eq!(base::request_random(&mut pending, 3).unwrap_err(), ErrorCode::Unauthorized);
    assert_eq!(pending.requester.count, 1);
}

#[test]
fn publish_by_non_oracle_is_unauthorized() {
    let mut req = request(record(), authority(), oracle());
    base::request_random(&mut req, 2).unwrap();
    let (random, pkt_id, tls_id) = payload();
    let mut p = publish(req.requester, authority());
    let r = base::publish_random(&mut p, random, pkt_id, tls_id, 3);
    assert_eq!(r.unwrap_err(), ErrorCode::Unauthorized);
    assert!(p.requester.active_request);
}

#[test]
fn wrong_oracle_is_refused_even_for_authority() {
    let mut req = request(record(), authority(), key(8));
    assert_eq!(base::request_random(&mut req, 2).unwrap_err(), ErrorCode::WrongOracle);
    assert!(!req.requester.active_request);
    assert_eq!(req.requester.count, 0);
    let mut ok = request(record(), authority(), oracle());
    base::request_random(&mut ok, 2).unwrap();
    let mut pending = request(ok.requester, authority(), key(8));
    assert_eq!(base::request_random(&mut pending, 3).unwrap_err(), ErrorCode::WrongOracle);
}

#[test]
fn transfer_and_cancel_by_stranger_are_unauthorized() {
    let mut t = base::TransferAuthority {
        requester: record(),
        authority: key(5),
        new_authority: key(5),
    };
    assert_eq!(base::transfer_authority(&mut t).unwrap_err(), ErrorCode::Unauthorized);
    assert_eq!(t.requester.authority, authority());
    let c = base::Cancel { requester: record(), authority: key(5) };
    assert_eq!(base::cancel(&c).unwrap_err(), ErrorCode::Unauthorized);
}

#[test]
fn cancel_locked_while_pending_allowed_when_idle() {
    let c = base::Cancel { requester: record(), authority: authority() };
    assert_eq!(base::cancel(&c), Ok(()));
    let mut req = request(record(), authority(), oracle());
    base::request_random(&mut req, 2).unwrap();
    let c = base::Cancel { requester: req.requester, authority: authority() };
    assert_eq!(base::cancel(&c).unwrap_err(), ErrorCode::RequesterLocked);
}

#[test]
fn count_rises_by_one_per_accepted_request_only() {
    let mut r = record();
    let (random, pkt_id, tls_id) = payload();
    for n in 1..=5u64 {
        let mut bad = request(r, key(5), oracle());
        let _ = base::request_random(&mut bad, 0);
        assert_eq!(bad.requester.count, n - 1);
        let mut req = request(r, authority(), oracle());
        base::request_random(&mut req, n as i64).unwrap();
        assert_eq!(req.requester.count, n);
        let mut p = publish(req.requester, oracle());
        base::publish_random(&mut p, random, pkt_id, tls_id, n as i64).unwrap();
        assert_eq!(p.requester.count, n);
        r = p.requester;
    }
}

fn fee_record() -> (Requester, fee::Vault) {
    let ctx = fee::Initialize { requester: key(9), authority: authority(), oracle: oracle() };
    fee::initialize(&ctx, 250, 251, 500)
}

fn fee_request(vault_lamports: u64, oracle_lamports: u64) -> fee::RequestRandom {
    let (r, v) = fee_record();
    fee::RequestRandom {
        requester: r,
        requester_key: key(9),
        vault: v,
        vault_lamports,
        authority: authority(),
        oracle: oracle(),
        oracle_lamports,
    }
}

#[test]
fn fee_initialize_pairs_vault_with_record() {
    let (r, v) = fee_record();
    assert_eq!(v.requester, key(9));
    assert_eq!(v.bump, 251);
    assert_eq!(r.bump, 250);
    assert_eq!(r.authority, authority());
    assert_eq!(r.oracle, oracle());
    assert_eq!(r.count, 0);
    assert!(!r.active_request);
    assert_eq!(r.created_at, 500);
}

#[test]
fn fee_request_moves_exactly_the_fee() {
    let mut ctx = fee_request(1_000_000, 10);
    assert_eq!(fee::request_random(&mut ctx, 600), Ok(()));
    assert_eq!(ctx.vault_lamports, 505_000);
    assert_eq!(ctx.oracle_lamports, 495_010);
    assert!(ctx.requester.active_request);
    assert_eq!(ctx.requester.count, 1);
    assert_eq!(ctx.requester.last_updated, 600);
    assert_eq!(fee::ORACLE_FEE, 495_000);
}

#[test]
fn fee_request_with_exact_fee_empties_vault() {
    let mut ctx = fee_request(495_000, 0);
    assert_eq!(fee::request_random(&mut ctx, 600), Ok(()));
    assert_eq!(ctx.vault_lamports, 0);
    assert_eq!(ctx.oracle_lamports, 495_000);
}

#[test]
fn fee_request_insufficient_funds_changes_nothing() {
    let mut ctx = fee_request(494_999, 10);
    assert_eq!(fee::request_random(&mut ctx, 600), Err(fee::FeeError::InsufficientFunds));
    assert_eq!(ctx.vault_lamports, 494_999);
    assert_eq!(ctx.oracle_lamports, 10);
    assert!(!ctx.requester.active_request);
    assert_eq!(ctx.requester.count, 0);
}

#[test]
fn fee_request_oracle_overflow_changes_nothing() {
    let mut ctx = fee_request(1_000_000, u64::MAX - 494_999);
    assert_eq!(fee::request_random(&mut ctx, 600), Err(fee::FeeError::BalanceOverflow));
    assert_eq!(ctx.vault_lamports, 1_000_000);
    assert!(!ctx.requester.active_request);
}

#[test]
fn fee_request_against_foreign_vault_is_unauthorized() {
    let mut ctx = fee_request(1_000_000, 0);
    ctx.vault.requester = key(10);
    assert_eq!(
        fee::request_random(&mut ctx, 600),
        Err(fee::FeeError::Code(ErrorCode::Unauthorized))
    );
    assert_eq!(ctx.vault_lamports, 1_000_000);
    assert_eq!(ctx.requester.count, 0);
}

#[test]
fn fee_request_checks_protocol_before_funds() {
    let mut ctx = fee_request(0, 0);
    ctx.oracle = key(8);
    assert_eq!(
        fee::request_random(&mut ctx, 600),
        Err(fee::FeeError::Code(ErrorCode::WrongOracle))
    );
    let mut ctx = fee_request(0, 0);
    ctx.authority = key(5);
    assert_eq!(
        fee::request_random(&mut ctx, 600),
        Err(fee::FeeError::Code(ErrorCode::Unauthorized))
    );
}

#[test]
fn fee_second_request_while_pending_fails() {
    let mut ctx = fee_request(2_000_000, 0);
    fee::request_random(&mut ctx, 600).unwrap();
    assert_eq!(
        fee::request_random(&mut ctx, 601),
        Err(fee::FeeError::Code(ErrorCode::InflightRequest))
    );
    assert_eq!(ctx.vault_lamports, 1_505_000);
    assert_eq!(ctx.oracle_lamports, 495_000);
    assert_eq!(ctx.requester.count, 1);
}

#[test]
fn fee_publish_and_transfer() {
    let mut ctx = fee_request(2_000_000, 0);
    fee::request_random(&mut ctx, 600).unwrap();
    let mut t = fee::TransferAuthority {
        requester: ctx.requester,
        authority: authority(),
        new_authority: key(3),
    };
    assert_eq!(fee::transfer_authority(&mut t), Err(ErrorCode::RequesterLocked));

    let (random, pkt_id, tls_id) = payload();
    let mut p = fee::PublishRandom { requester: ctx.requester, oracle: authority() };
    assert_eq!(
        fee::publish_random(&mut p, random, pkt_id, tls_id, 700),
        Err(ErrorCode::Unauthorized)
    );
    p.oracle = oracle();
    assert_eq!(fee::publish_random(&mut p, random, pkt_id, tls_id, 700), Ok(()));
    assert_eq!(p.requester.random, random);
    assert!(!p.requester.active_request);
    assert_eq!(
        fee::publish_random(&mut p, random, pkt_id, tls_id, 701),
        Err(ErrorCode::AlreadyCompleted)
    );

    t.requester = p.requester;
    assert_eq!(fee::transfer_authority(&mut t), Ok(()));
    assert_eq!(t.requester.authority, key(3));
}

fn fee_cancel(vault_lamports: u64, authority_lamports: u64) -> fee::Cancel {
    let (r, v) = fee_record();
    fee::Cancel {
        requester: r,
        requester_key: key(9),
        vault: v,
        vault_lamports,
        authority: authority(),
        authority_lamports,
    }
}

#[test]
fn fee_cancel_drains_vault_to_authority() {
    let mut c = fee_cancel(1_234, 100);
    assert_eq!(fee::cancel(&mut c), Ok(()));
    assert_eq!(c.vault_lamports, 0);
    assert_eq!(c.authority_lamports, 1_334);
}

#[test]
fn fee_cancel_refusals() {
    let mut c = fee_cancel(1, 0);
    c.authority = key(5);
    assert_eq!(fee::cancel(&mut c), Err(fee::FeeError::Code(ErrorCode::Unauthorized)));

    let mut c = fee_cancel(1, 0);
    c.vault.requester = key(10);
    assert_eq!(fee::cancel(&mut c), Err(fee::FeeError::Code(ErrorCode::Unauthorized)));

    let mut c = fee_cancel(1, 0);
    c.requester.active_request = true;
    assert_eq!(fee::cancel(&mut c), Err(fee::FeeError::Code(ErrorCode::RequesterLocked)));
    assert_eq!(c.vault_lamports, 1);

    let mut c = fee_cancel(2, u64::MAX - 1);
    assert_eq!(fee::cancel(&mut c), Err(fee::FeeError::BalanceOverflow));
    assert_eq!(c.vault_lamports, 2);
    assert_eq!(c.authority_lamports, u64::MAX - 1);
}

#[test]
fn engine_steps_match_operations() {
    let mut r = Requester::new(authority(), oracle(), 5, 0, 0);
    assert_eq!(r.check_request(&authority(), &oracle()), Ok(()));
    assert_eq!(r.check_publish(&oracle()), Err(ErrorCode::AlreadyCompleted));
    r.lock(6);
    assert_eq!(r.check_request(&authority(), &oracle()), Err(ErrorCode::InflightRequest));
    assert_eq!(r.check_control(&authority()), Err(ErrorCode::RequesterLocked));
    assert_eq!(r.check_publish(&oracle()), Ok(()));
    r.fulfill([1u8; 64], [2u8; 32], [3u8; 32], 7);
    assert_eq!(r.check_control(&authority()), Ok(()));
    assert_eq!(r.random, [1u8; 64]);
    assert_eq!(r.last_updated, 7);
    assert_eq!(r.count, 1);
}
