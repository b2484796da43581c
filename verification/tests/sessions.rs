use account_kernel::config::Aws;
use account_kernel::config::Config;
use account_kernel::config::Database;
use account_kernel::config::Http;
use account_kernel::config::Mail;
use account_kernel::config::MailDriver;
use account_kernel::config::S3;
use account_kernel::config::Sentry;
use account_kernel::config::Ses;
use account_kernel::config::Smtp;
use account_kernel::config::Storage;
use account_kernel::config::StorageDriver;
use account_kernel::config::Stripe;
use account_kernel::config::StripeData;
use account_kernel::config::StripePrices;
use account_kernel::config::StripeProducts;
use account_kernel::config::Worker;
use account_kernel::consts::SESSION_TTL_SECONDS;
use account_kernel::entities::User;
use account_kernel::errors::Error;
use account_kernel::repository::Repository;
use account_kernel::service::CompleteRegistrationInput;
use account_kernel::service::Message;
use account_kernel::service::RegisterInput;
use account_kernel::service::RevokeSessionInput;
use account_kernel::service::Service;

fn test_config() -> Config {
    Config {
        env: "dev".to_string(),
        base_url: "http://localhost".to_string(),
        master_key: vec![7u8; 32],
        old_master_key: None,
        self_hosted: true,
        debug: false,
        http: Http { port: 8000, access_logs: false, public_directory: "public".to_string() },
        database: Database { url: "postgres://localhost/app".to_string(), pool_size: 10 },
        smtp: Smtp { port: None, host: None, username: None, password: None },
        mail: Mail {
            driver: MailDriver::Ses,
            notify_address: "noreply@example.com".to_string(),
            domains_blocklist_file: "blocklist.txt".to_string(),
            domains_blocklist: vec!["tempmail.example".to_string()],
        },
        storage: Storage { driver: StorageDriver::S3, base_direcotry: String::new() },
        stripe: Stripe {
            secret_key: "sk".to_string(),
            public_key: "pk".to_string(),
            webhook_secret: "wh".to_string(),
            data: StripeData {
                taxes: vec![],
                products: StripeProducts {
                    starter: "prod_a".to_string(),
                    pro: "prod_b".to_string(),
                    ultra: "prod_c".to_string(),
                },
                prices: StripePrices {
                    starter: "price_a".to_string(),
                    pro: "price_b".to_string(),
                    ultra: "price_c".to_string(),
                },
            },
            json_data: "{}".to_string(),
        },
        aws: Aws {
            secret_access_key: None,
            access_key_id: None,
            default_region: "eu-central-1".to_string(),
        },
        ses: Ses { region: "eu-central-1".to_string() },
        s3: S3 { region: "eu-central-1".to_string(), bucket: None },
        worker: Worker { concurrency: 4 },
        sentry: Sentry { security_report_uri: None, ingest_domain: None, dsn: None },
    }
}

fn service() -> Service {
    Service::new(test_config())
}

fn activate(s: &Service, repo: &mut Repository, email: &str, username: &str, now: u64) -> User {
    let input = RegisterInput { email: email.to_string(), username: username.to_string() };
    let (pu, msg) = s.register(repo, None, input, now).expect("registration should succeed");
    let code = match msg {
        Message::SendRegisterEmail { code, .. } => String::from_utf8(code).unwrap(),
        other => panic!("unexpected message: {:?}", other),
    };
    s.complete_registration(repo, CompleteRegistrationInput { pending_user_id: pu.id, code }, now)
        .expect("completion should succeed")
}

#[test]
fn issued_token_verifies() {
    let s = service();
    let mut repo = Repository::new();
    let user = activate(&s, &mut repo, "a@example.com", "alice", 10);
    let (session, token) = s.issue(&mut repo, user.id, 100);
    assert_eq!(session.user_id, user.id);
    assert_eq!(session.expires_at, 100 + SESSION_TTL_SECONDS);
    let got = s.verify(&repo, &token, 150).expect("token should verify");
    assert_eq!(got.id, user.id);
    assert_eq!(got.email, user.email);
}

#[test]
fn garbage_tokens_are_unauthenticated() {
    let s = service();
    let mut repo = Repository::new();
    let user = activate(&s, &mut repo, "a@example.com", "alice", 10);
    let (_, _token) = s.issue(&mut repo, user.id, 100);
    assert!(matches!(s.verify(&repo, "not base64 at all!", 100), Err(Error::Unauthenticated)));
    assert!(matches!(s.verify(&repo, "", 100), Err(Error::Unauthenticated)));
    assert!(matches!(s.verify(&repo, "QUJD", 100), Err(Error::Unauthenticated)));
}

#[test]
fn wrong_secret_is_unauthenticated() {
    let s = service();
    let mut repo = Repository::new();
    let user = activate(&s, &mut repo, "a@example.com", "alice", 10);
    let (session, _token) = s.issue(&mut repo, user.id, 100);
    let mut frame = Vec::new();
    let mut id = session.id;
    for _ in 0..16 {
        frame.push((id & 0xff) as u8);
        id >>= 8;
    }
    frame.extend_from_slice(&[0u8; 32]);
    let forged = base64::encode(&frame);
    assert!(matches!(s.verify(&repo, &forged, 100), Err(Error::Unauthenticated)));
}

#[test]
fn expired_session_is_unauthenticated() {
    let s = service();
    let mut repo = Repository::new();
    let user = activate(&s, &mut repo, "a@example.com", "alice", 10);
    let (session, token) = s.issue(&mut repo, user.id, 100);
    assert!(s.verify(&repo, &token, session.expires_at).is_ok());
    assert!(matches!(
        s.verify(&repo, &token, session.expires_at + 1),
        Err(Error::Unauthenticated)
    ));
}

#[test]
fn revoked_session_is_unauthenticated() {
    let s = service();
    let mut repo = Repository::new();
    let user = activate(&s, &mut repo, "a@example.com", "alice", 10);
    let (session, token) = s.issue(&mut repo, user.id, 100);
    assert!(s.verify(&repo, &token, 200).is_ok());
    s.revoke_session(&mut repo, &user, RevokeSessionInput { session_id: session.id })
        .expect("owner may revoke");
    assert!(matches!(s.verify(&repo, &token, 200), Err(Error::Unauthenticated)));
}

#[test]
fn revoking_twice_is_not_an_error() {
    let s = service();
    let mut repo = Repository::new();
    let user = activate(&s, &mut repo, "a@example.com", "alice", 10);
    let (session, _) = s.issue(&mut repo, user.id, 100);
    let input = RevokeSessionInput { session_id: session.id };
    assert!(s.revoke_session(&mut repo, &user, input).is_ok());
    assert!(s.revoke_session(&mut repo, &user, input).is_ok());
}

#[test]
fn only_the_owner_may_revoke() {
    let s = service();
    let mut repo = Repository::new();
    let alice = activate(&s, &mut repo, "a@example.com", "alice", 10);
    let mallory = activate(&s, &mut repo, "m@example.com", "mallory", 11);
    let (session, token) = s.issue(&mut repo, alice.id, 100);
    let input = RevokeSessionInput { session_id: session.id };
    assert!(matches!(
        s.revoke_session(&mut repo, &mallory, input),
        Err(Error::PermissionDenied)
    ));
    assert!(s.verify(&repo, &token, 200).is_ok());
}
