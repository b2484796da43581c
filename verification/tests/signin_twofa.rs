use account_kernel::config::Aws;
use account_kernel::config::Config;
use account_kernel::config::Database;
use account_kernel::config::Http;
use account_kernel::config::Mail;
use account_kernel::config::MailDriver;
use account_kernel::config::S3;
use account_kernel::config::Sentry;
use account_kernel::config::Ses;
use account_kernel::config::Smtp;
use account_kernel::config::Storage;
use account_kernel::config::StorageDriver;
use account_kernel::config::Stripe;
use account_kernel::config::StripeData;
use account_kernel::config::StripePrices;
use account_kernel::config::StripeProducts;
use account_kernel::config::Worker;
use account_kernel::consts::TOTP_STEP_SECONDS;
use account_kernel::entities::User;
use account_kernel::errors::Error;
use account_kernel::repository::Repository;
use account_kernel::service::CompleteRegistrationInput;
use account_kernel::service::CompleteSignInInput;
use account_kernel::service::CompleteTwoFaChallengeInput;
use account_kernel::service::DisableTwoFaInput;
use account_kernel::service::EnableTwoFaInput;
use account_kernel::service::Message;
use account_kernel::service::RegisterInput;
use account_kernel::service::Service;
use account_kernel::service::SignInInput;
use account_kernel::service::SignedIn;

fn test_config() -> Config {
    Config {
        env: "dev".to_string(),
        base_url: "http://localhost".to_string(),
        master_key: vec![7u8; 32],
        old_master_key: None,
        self_hosted: true,
        debug: false,
        http: Http { port: 8000, access_logs: false, public_directory: "public".to_string() },
        database: Database { url: "postgres://localhost/app".to_string(), pool_size: 10 },
        smtp: Smtp { port: None, host: None, username: None, password: None },
        mail: Mail {
            driver: MailDriver::Ses,
            notify_address: "noreply@example.com".to_string(),
            domains_blocklist_file: "blocklist.txt".to_string(),
            domains_blocklist: vec!["tempmail.example".to_string()],
        },
        storage: Storage { driver: StorageDriver::S3, base_direcotry: String::new() },
        stripe: Stripe {
            secret_key: "sk".to_string(),
            public_key: "pk".to_string(),
            webhook_secret: "wh".to_string(),
            data: StripeData {
                taxes: vec![],
                products: StripeProducts {
                    starter: "prod_a".to_string(),
                    pro: "prod_b".to_string(),
                    ultra: "prod_c".to_string(),
                },
                prices: StripePrices {
                    starter: "price_a".to_string(),
                    pro: "price_b".to_string(),
                    ultra: "price_c".to_string(),
                },
            },
            json_data: "{}".to_string(),
        },
        aws: Aws {
            secret_access_key: None,
            access_key_id: None,
            default_region: "eu-central-1".to_string(),
        },
        ses: Ses { region: "eu-central-1".to_string() },
        s3: S3 { region: "eu-central-1".to_string(), bucket: None },
        worker: Worker { concurrency: 4 },
        sentry: Sentry { security_report_uri: None, ingest_domain: None, dsn: None },
    }
}

fn service() -> Service {
    Service::new(test_config())
}

fn activate(s: &Service, repo: &mut Repository, email: &str, username: &str, now: u64) -> User {
    let input = RegisterInput { email: email.to_string(), username: username.to_string() };
    let (pu, msg) = s.register(repo, None, input, now).expect("registration should succeed");
    let code = match msg {
        Message::SendRegisterEmail { code, .. } => String::from_utf8(code).unwrap(),
        other => panic!("unexpected message: {:?}", other),
    };
    s.complete_registration(repo, CompleteRegistrationInput { pending_user_id: pu.id, code }, now)
        .expect("completion should succeed")
}

fn start_sign_in(s: &Service, repo: &mut Repository, identity: &str, now: u64) -> (u128, String) {
    let input = SignInInput { email_or_username: identity.to_string() };
    let (ps, msg) = s.sign_in(repo, None, input, now).expect("sign-in should start");
    let code = match msg {
        Message::SendSignInEmail { code, .. } => String::from_utf8(code).unwrap(),
        other => panic!("unexpected message: {:?}", other),
    };
    (ps.id, code)
}

fn totp_now(secret: &[u8], now: u64) -> String {
    totp_lite::totp_custom::<totp_lite::Sha1>(1, 6, secret, now / TOTP_STEP_SECONDS)
}

fn enable_two_fa(s: &Service, repo: &mut Repository, user: &User, now: u64) -> Vec<u8> {
    let secret = s
        .begin_two_fa_setup(repo, Some(user.clone()), now)
        .expect("setup should begin");
    let code = totp_now(&secret, now);
    s.setup_two_fa(repo, Some(user.clone()), EnableTwoFaInput { code }, now)
        .expect("setup should complete");
    secret
}

#[test]
fn sign_in_unknown_identity() {
    let s = service();
    let mut repo = Repository::new();
    let input = SignInInput { email_or_username: "ghost".to_string() };
    assert!(matches!(s.sign_in(&mut repo, None, input, 1), Err(Error::UserNotFound)));
}

#[test]
fn sign_in_works_by_email_and_username() {
    let s = service();
    let mut repo = Repository::new();
    let user = activate(&s, &mut repo, "a@example.com", "alice", 1);
    let (ps_id, code) = start_sign_in(&s, &mut repo, " A@example.com", 2);
    let out = s
        .complete_sign_in(&mut repo, CompleteSignInInput { pending_session_id: ps_id, code }, 3)
        .expect("sign-in should complete");
    match out {
        SignedIn::Success { session, user: u, token } => {
            assert_eq!(u.id, user.id);
            assert_eq!(session.user_id, user.id);
            assert_eq!(s.verify(&repo, &token, 10).unwrap().id, user.id);
        },
        other => panic!("unexpected: {:?}", other),
    }
    let (ps2, code2) = start_sign_in(&s, &mut repo, "alice", 20);
    assert!(s
        .complete_sign_in(
            &mut repo,
            CompleteSignInInput { pending_session_id: ps2, code: code2 },
            21,
        )
        .is_ok());
}

#[test]
fn wrong_sign_in_codes_exhaust_the_pending_session() {
    let s = service();
    let mut repo = Repository::new();
    let _user = activate(&s, &mut repo, "a@example.com", "alice", 1);
    let (ps_id, code) = start_sign_in(&s, &mut repo, "alice", 2);
    for attempt in 0..5 {
        let bad = CompleteSignInInput {
            pending_session_id: ps_id,
            code: "00000000".to_string(),
        };
        let r = s.complete_sign_in(&mut repo, bad, 3);
        if attempt < 4 {
            assert!(matches!(r, Err(Error::InvalidCode)));
        } else {
            assert!(matches!(r, Err(Error::AttemptsExceeded)));
        }
    }
    let good = CompleteSignInInput { pending_session_id: ps_id, code };
    assert!(matches!(
        s.complete_sign_in(&mut repo, good, 4),
        Err(Error::PendingSessionNotFound)
    ));
}

#[test]
fn two_fa_sign_in_issues_no_session_before_challenge() {
    let s = service();
    let mut repo = Repository::new();
    let user = activate(&s, &mut repo, "a@example.com", "alice", 1);
    let now = 9_000;
    let secret = enable_two_fa(&s, &mut repo, &user, now);
    let sessions_before = repo.sessions.len();
    let (ps_id, code) = start_sign_in(&s, &mut repo, "alice", now + 600);
    let out = s
        .complete_sign_in(
            &mut repo,
            CompleteSignInInput { pending_session_id: ps_id, code },
            now + 601,
        )
        .expect("code should be accepted");
    assert!(matches!(out, SignedIn::TwoFa(_)));
    assert_eq!(repo.sessions.len(), sessions_before, "no session before the challenge");
    let challenge_now = now + 700;
    let totp = totp_now(&secret, challenge_now);
    let out = s
        .complete_two_fa_challenge(
            &mut repo,
            CompleteTwoFaChallengeInput { pending_session_id: ps_id, code: totp },
            challenge_now,
        )
        .expect("challenge should pass");
    match out {
        SignedIn::Success { session, user: u, token } => {
            assert_eq!(u.id, user.id);
            assert_eq!(session.user_id, user.id);
            assert_eq!(repo.sessions.len(), sessions_before + 1);
            assert!(s.verify(&repo, &token, challenge_now).is_ok());
        },
        other => panic!("unexpected: {:?}", other),
    }
}

#[test]
fn challenge_requires_verified_code_first() {
    let s = service();
    let mut repo = Repository::new();
    let user = activate(&s, &mut repo, "a@example.com", "alice", 1);
    let secret = enable_two_fa(&s, &mut repo, &user, 9_000);
    let (ps_id, _code) = start_sign_in(&s, &mut repo, "alice", 9_600);
    let totp = totp_now(&secret, 9_601);
    assert!(matches!(
        s.complete_two_fa_challenge(
            &mut repo,
            CompleteTwoFaChallengeInput { pending_session_id: ps_id, code: totp },
            9_601,
        ),
        Err(Error::Unauthenticated)
    ));
}

#[test]
fn totp_window_accepts_one_step_of_drift() {
    let s = service();
    let mut repo = Repository::new();
    let user = activate(&s, &mut repo, "a@example.com", "alice", 1);
    let secret = enable_two_fa(&s, &mut repo, &user, 3_000);
    let cases: [(&str, u64, i64); 3] = [
        ("behind", 6_000, -(TOTP_STEP_SECONDS as i64)),
        ("exact", 9_000, 0),
        ("ahead", 12_000, TOTP_STEP_SECONDS as i64),
    ];
    for (label, now, skew) in cases {
        let (ps_id, code) = start_sign_in(&s, &mut repo, "alice", now);
        s.complete_sign_in(
            &mut repo,
            CompleteSignInInput { pending_session_id: ps_id, code },
            now,
        )
        .expect("code should be accepted");
        let at = (now as i64 + skew) as u64;
        let totp = totp_now(&secret, at);
        let r = s.complete_two_fa_challenge(
            &mut repo,
            CompleteTwoFaChallengeInput { pending_session_id: ps_id, code: totp },
            now,
        );
        assert!(r.is_ok(), "drift case {} failed: {:?}", label, r);
    }
}

#[test]
fn totp_rejects_stale_and_replayed_codes() {
    let s = service();
    let mut repo = Repository::new();
    let user = activate(&s, &mut repo, "a@example.com", "alice", 1);
    let secret = enable_two_fa(&s, &mut repo, &user, 3_000);
    let now = 6_000;
    let (ps_id, code) = start_sign_in(&s, &mut repo, "alice", now);
    s.complete_sign_in(&mut repo, CompleteSignInInput { pending_session_id: ps_id, code }, now)
        .expect("code should be accepted");
    let stale = totp_now(&secret, now - 2 * TOTP_STEP_SECONDS);
    assert!(matches!(
        s.complete_two_fa_challenge(
            &mut repo,
            CompleteTwoFaChallengeInput { pending_session_id: ps_id, code: stale },
            now,
        ),
        Err(Error::TwoFACodeIsNotValid)
    ));
    let good = totp_now(&secret, now);
    s.complete_two_fa_challenge(
        &mut repo,
        CompleteTwoFaChallengeInput { pending_session_id: ps_id, code: good.clone() },
        now,
    )
    .expect("fresh code should pass");
    // the same code within the same window must be refused (replay)
    let (ps2, code2) = start_sign_in(&s, &mut repo, "alice", now + 1);
    s.complete_sign_in(&mut repo, CompleteSignInInput { pending_session_id: ps2, code: code2 }, now + 1)
        .expect("code should be accepted");
    assert!(matches!(
        s.complete_two_fa_challenge(
            &mut repo,
            CompleteTwoFaChallengeInput { pending_session_id: ps2, code: good },
            now + 1,
        ),
        Err(Error::TwoFACodeIsNotValid)
    ));
}

#[test]
fn setup_requires_begin_and_rejects_double_enable() {
    let s = service();
    let mut repo = Repository::new();
    let user = activate(&s, &mut repo, "a@example.com", "alice", 1);
    assert!(matches!(
        s.setup_two_fa(
            &mut repo,
            Some(user.clone()),
            EnableTwoFaInput { code: "123456".to_string() },
            2,
        ),
        Err(Error::TwoFaIsNotEnabled)
    ));
    let _secret = enable_two_fa(&s, &mut repo, &user, 3_000);
    assert!(matches!(
        s.begin_two_fa_setup(&mut repo, Some(user.clone()), 3_100),
        Err(Error::TwoFaAlreadyEnabled)
    ));
    assert!(matches!(
        s.setup_two_fa(
            &mut repo,
            Some(user.clone()),
            EnableTwoFaInput { code: "123456".to_string() },
            3_200,
        ),
        Err(Error::TwoFaAlreadyEnabled)
    ));
}

#[test]
fn setup_code_cannot_be_replayed_to_disable() {
    let s = service();
    let mut repo = Repository::new();
    let user = activate(&s, &mut repo, "a@example.com", "alice", 1);
    let secret = s
        .begin_two_fa_setup(&mut repo, Some(user.clone()), 3_000)
        .expect("setup should begin");
    let code = totp_now(&secret, 3_000);
    s.setup_two_fa(&mut repo, Some(user.clone()), EnableTwoFaInput { code: code.clone() }, 3_000)
        .expect("setup should complete");
    // the code consumed by the setup is refused again within its window
    assert!(matches!(
        s.disable_two_fa(&mut repo, Some(user.clone()), DisableTwoFaInput { code }, 3_001),
        Err(Error::TwoFACodeIsNotValid)
    ));
    assert!(repo.users[0].two_fa_enabled);
}

#[test]
fn disable_two_fa_with_fresh_code() {
    let s = service();
    let mut repo = Repository::new();
    let user = activate(&s, &mut repo, "a@example.com", "alice", 1);
    let secret = enable_two_fa(&s, &mut repo, &user, 3_000);
    let now = 3_000 + 120;
    let code = totp_now(&secret, now);
    s.disable_two_fa(&mut repo, Some(user.clone()), DisableTwoFaInput { code }, now)
        .expect("disable should succeed");
    assert!(!repo.users[0].two_fa_enabled);
    assert!(repo.users[0].encrypted_totp_secret.is_none());
    // sign-in now issues a session directly again
    let (ps_id, code) = start_sign_in(&s, &mut repo, "alice", now + 60);
    let out = s
        .complete_sign_in(
            &mut repo,
            CompleteSignInInput { pending_session_id: ps_id, code },
            now + 61,
        )
        .expect("sign-in should complete");
    assert!(matches!(out, SignedIn::Success { .. }));
}

#[test]
fn codes_with_dashes_and_spaces_are_normalized() {
    let s = service();
    let mut repo = Repository::new();
    let user = activate(&s, &mut repo, "a@example.com", "alice", 1);
    let secret = s
        .begin_two_fa_setup(&mut repo, Some(user.clone()), 2_000)
        .expect("setup should begin");
    let raw = totp_now(&secret, 2_000);
    let spaced = format!(" {}-{} ", &raw[..3], &raw[3..]);
    s.setup_two_fa(&mut repo, Some(user.clone()), EnableTwoFaInput { code: spaced }, 2_000)
        .expect("normalized code should be accepted");
}
