use account_kernel::config::Aws;
use account_kernel::config::Config;
use account_kernel::config::Database;
use account_kernel::config::Http;
use account_kernel::config::Mail;
use account_kernel::config::MailDriver;
use account_kernel::config::S3;
use account_kernel::config::Sentry;
use account_kernel::config::Ses;
use account_kernel::config::Smtp;
use account_kernel::config::Storage;
use account_kernel::config::StorageDriver;
use account_kernel::config::Stripe;
use account_kernel::config::StripeData;
use account_kernel::config::StripePrices;
use account_kernel::config::StripeProducts;
use account_kernel::config::Worker;
use account_kernel::entities::PendingUser;
use account_kernel::entities::User;
use account_kernel::errors::Error;
use account_kernel::repository::Repository;
use account_kernel::service::CompleteRegistrationInput;
use account_kernel::service::Message;
use account_kernel::service::RegisterInput;
use account_kernel::service::Service;

fn test_config() -> Config {
    Config {
        env: "dev".to_string(),
        base_url: "http://localhost".to_string(),
        master_key: vec![7u8; 32],
        old_master_key: None,
        self_hosted: true,
        debug: false,
        http: Http { port: 8000, access_logs: false, public_directory: "public".to_string() },
        database: Database { url: "postgres://localhost/app".to_string(), pool_size: 10 },
        smtp: Smtp { port: None, host: None, username: None, password: None },
        mail: Mail {
            driver: MailDriver::Ses,
            notify_address: "noreply@example.com".to_string(),
            domains_blocklist_file: "blocklist.txt".to_string(),
            domains_blocklist: vec!["tempmail.example".to_string()],
        },
        storage: Storage { driver: StorageDriver::S3, base_direcotry: String::new() },
        stripe: Stripe {
            secret_key: "sk".to_string(),
            public_key: "pk".to_string(),
            webhook_secret: "wh".to_string(),
            data: StripeData {
                taxes: vec![],
                products: StripeProducts {
                    starter: "prod_a".to_string(),
                    pro: "prod_b".to_string(),
                    ultra: "prod_c".to_string(),
                },
                prices: StripePrices {
                    starter: "price_a".to_string(),
                    pro: "price_b".to_string(),
                    ultra: "price_c".to_string(),
                },
            },
            json_data: "{}".to_string(),
        },
        aws: Aws {
            secret_access_key: None,
            access_key_id: None,
            default_region: "eu-central-1".to_string(),
        },
        ses: Ses { region: "eu-central-1".to_string() },
        s3: S3 { region: "eu-central-1".to_string(), bucket: None },
        worker: Worker { concurrency: 4 },
        sentry: Sentry { security_report_uri: None, ingest_domain: None, dsn: None },
    }
}

fn service() -> Service {
    Service::new(test_config())
}

fn register_ok(
    s: &Service,
    repo: &mut Repository,
    email: &str,
    username: &str,
    now: u64,
) -> (PendingUser, String) {
    let input = RegisterInput { email: email.to_string(), username: username.to_string() };
    let (pu, msg) = s.register(repo, None, input, now).expect("registration should succeed");
    let code = match msg {
        Message::SendRegisterEmail { code, .. } => String::from_utf8(code).unwrap(),
        other => panic!("unexpected message: {:?}", other),
    };
    (pu, code)
}

fn activate(s: &Service, repo: &mut Repository, email: &str, username: &str, now: u64) -> User {
    let (pu, code) = register_ok(s, repo, email, username, now);
    s.complete_registration(repo, CompleteRegistrationInput { pending_user_id: pu.id, code }, now)
        .expect("completion should succeed")
}

#[test]
fn register_creates_pending_user() {
    let s = service();
    let mut repo = Repository::new();
    let (pu, code) = register_ok(&s, &mut repo, "Alice@example.com ", "Alice-1", 1000);
    assert_eq!(pu.email, b"alice@example.com".to_vec());
    assert_eq!(pu.username, b"alice-1".to_vec());
    assert_eq!(pu.failed_attempts, 0);
    assert_eq!(code.len(), 8);
    assert_eq!(repo.pending_users.len(), 1);
    assert_eq!(repo.users.len(), 0);
}

#[test]
fn register_rejects_authenticated_caller() {
    let s = service();
    let mut repo = Repository::new();
    let actor = activate(&s, &mut repo, "a@example.com", "alice", 1);
    let input = RegisterInput { email: "b@example.com".to_string(), username: "bobby".to_string() };
    assert!(matches!(
        s.register(&mut repo, Some(actor), input, 2),
        Err(Error::MustNotBeAuthenticated)
    ));
}

#[test]
fn register_rejects_bad_email_and_username() {
    let s = service();
    let mut repo = Repository::new();
    let bad_mail = RegisterInput { email: "nope".to_string(), username: "alice".to_string() };
    assert!(matches!(s.register(&mut repo, None, bad_mail, 1), Err(Error::EmailIsInvalid)));
    let bad_user = RegisterInput { email: "a@example.com".to_string(), username: "a".to_string() };
    assert!(matches!(s.register(&mut repo, None, bad_user, 1), Err(Error::NamespaceIsTooShort)));
    let blocked =
        RegisterInput { email: "a@tempmail.example".to_string(), username: "alice".to_string() };
    assert!(matches!(s.register(&mut repo, None, blocked, 1), Err(Error::EmailIsInvalid)));
}

#[test]
fn register_twice_same_email_conflicts() {
    let s = service();
    let mut repo = Repository::new();
    let _ = register_ok(&s, &mut repo, "dup@example.com", "alice", 1);
    let again =
        RegisterInput { email: "dup@example.com".to_string(), username: "bobby".to_string() };
    assert!(matches!(s.register(&mut repo, None, again, 2), Err(Error::EmailAlreadyExists)));
}

#[test]
fn register_taken_username_conflicts() {
    let s = service();
    let mut repo = Repository::new();
    let _ = activate(&s, &mut repo, "a@example.com", "alice", 1);
    let again =
        RegisterInput { email: "b@example.com".to_string(), username: "Alice".to_string() };
    assert!(matches!(s.register(&mut repo, None, again, 2), Err(Error::UsernameAlreadyExists)));
}

#[test]
fn complete_registration_creates_user_and_namespace() {
    let s = service();
    let mut repo = Repository::new();
    let user = activate(&s, &mut repo, "a@example.com", "alice", 7);
    assert_eq!(user.email, b"a@example.com".to_vec());
    assert_eq!(user.username, b"alice".to_vec());
    assert!(!user.two_fa_enabled);
    assert_eq!(repo.users.len(), 1);
    assert_eq!(repo.pending_users.len(), 0);
    assert!(s.check_namespace_exists(&repo, b"alice"));
}

#[test]
fn complete_registration_unknown_id() {
    let s = service();
    let mut repo = Repository::new();
    let input = CompleteRegistrationInput { pending_user_id: 999, code: "whatever".to_string() };
    assert!(matches!(
        s.complete_registration(&mut repo, input, 1),
        Err(Error::PendingUserNotFound)
    ));
}

#[test]
fn wrong_code_attempts_delete_pending_user() {
    let s = service();
    let mut repo = Repository::new();
    let (pu, code) = register_ok(&s, &mut repo, "a@example.com", "alice", 1);
    for attempt in 0..5 {
        let input = CompleteRegistrationInput {
            pending_user_id: pu.id,
            code: "00000000".to_string(),
        };
        let r = s.complete_registration(&mut repo, input, 2);
        if attempt < 4 {
            assert!(matches!(r, Err(Error::InvalidCode)), "attempt {}: {:?}", attempt, r);
        } else {
            assert!(matches!(r, Err(Error::AttemptsExceeded)), "attempt {}: {:?}", attempt, r);
        }
    }
    assert_eq!(repo.pending_users.len(), 0);
    let input = CompleteRegistrationInput { pending_user_id: pu.id, code };
    assert!(matches!(
        s.complete_registration(&mut repo, input, 3),
        Err(Error::PendingUserNotFound)
    ));
}

#[test]
fn wrong_code_below_budget_keeps_pending_user() {
    let s = service();
    let mut repo = Repository::new();
    let (pu, code) = register_ok(&s, &mut repo, "a@example.com", "alice", 1);
    let bad = CompleteRegistrationInput { pending_user_id: pu.id, code: "00000000".to_string() };
    assert!(matches!(s.complete_registration(&mut repo, bad, 2), Err(Error::InvalidCode)));
    assert_eq!(repo.pending_users.len(), 1);
    assert_eq!(repo.pending_users[0].failed_attempts, 1);
    let good = CompleteRegistrationInput { pending_user_id: pu.id, code };
    assert!(s.complete_registration(&mut repo, good, 3).is_ok());
}

#[test]
fn completion_blocked_by_namespace_taken_meanwhile() {
    let s = service();
    let mut repo = Repository::new();
    let creator = activate(&s, &mut repo, "c@example.com", "carol", 1);
    let (pu, code) = register_ok(&s, &mut repo, "a@example.com", "my-team", 2);
    let group = account_kernel::service::CreateGroupInput {
        name: "Team".to_string(),
        path: "my-team".to_string(),
        description: String::new(),
    };
    s.create_group(&mut repo, Some(creator), group, 3).expect("group should be created");
    let input = CompleteRegistrationInput { pending_user_id: pu.id, code };
    assert!(matches!(
        s.complete_registration(&mut repo, input, 4),
        Err(Error::UsernameAlreadyExists)
    ));
}
