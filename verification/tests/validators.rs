use account_kernel::config::Aws;
use account_kernel::config::Config;
use account_kernel::config::Database;
use account_kernel::config::Http;
use account_kernel::config::Mail;
use account_kernel::config::MailDriver;
use account_kernel::config::S3;
use account_kernel::config::Sentry;
use account_kernel::config::Ses;
use account_kernel::config::Smtp;
use account_kernel::config::Storage;
use account_kernel::config::StorageDriver;
use account_kernel::config::Stripe;
use account_kernel::config::StripeData;
use account_kernel::config::StripePrices;
use account_kernel::config::StripeProducts;
use account_kernel::config::Worker;
use account_kernel::errors::Error;
use account_kernel::service::Service;

fn test_config() -> Config {
    Config {
        env: "dev".to_string(),
        base_url: "http://localhost".to_string(),
        master_key: vec![7u8; 32],
        old_master_key: None,
        self_hosted: true,
        debug: false,
        http: Http { port: 8000, access_logs: false, public_directory: "public".to_string() },
        database: Database { url: "postgres://localhost/app".to_string(), pool_size: 10 },
        smtp: Smtp { port: None, host: None, username: None, password: None },
        mail: Mail {
            driver: MailDriver::Ses,
            notify_address: "noreply@example.com".to_string(),
            domains_blocklist_file: "blocklist.txt".to_string(),
            domains_blocklist: vec!["tempmail.example".to_string()],
        },
        storage: Storage { driver: StorageDriver::S3, base_direcotry: String::new() },
        stripe: Stripe {
            secret_key: "sk".to_string(),
            public_key: "pk".to_string(),
            webhook_secret: "wh".to_string(),
            data: StripeData {
                taxes: vec![],
                products: StripeProducts {
                    starter: "prod_a".to_string(),
                    pro: "prod_b".to_string(),
                    ultra: "prod_c".to_string(),
                },
                prices: StripePrices {
                    starter: "price_a".to_string(),
                    pro: "price_b".to_string(),
                    ultra: "price_c".to_string(),
                },
            },
            json_data: "{}".to_string(),
        },
        aws: Aws {
            secret_access_key: None,
            access_key_id: None,
            default_region: "eu-central-1".to_string(),
        },
        ses: Ses { region: "eu-central-1".to_string() },
        s3: S3 { region: "eu-central-1".to_string(), bucket: None },
        worker: Worker { concurrency: 4 },
        sentry: Sentry { security_report_uri: None, ingest_domain: None, dsn: None },
    }
}

fn service() -> Service {
    Service::new(test_config())
}

#[test]
fn namespace_rules_reject_and_accept() {
    let s = service();
    assert!(matches!(s.validate_namespace("-abc"), Err(Error::InvalidNamespace)));
    assert!(matches!(s.validate_namespace("ab--cd"), Err(Error::InvalidNamespace)));
    assert!(matches!(s.validate_namespace("ab-"), Err(Error::NamespaceIsTooShort)));
    assert!(matches!(s.validate_namespace("abc-"), Err(Error::InvalidNamespace)));
    assert!(s.validate_namespace("ab-cd").is_ok());
    assert!(s.validate_namespace("my-group42").is_ok());
}

#[test]
fn namespace_length_bounds() {
    let s = service();
    assert!(matches!(s.validate_namespace("abc"), Err(Error::NamespaceIsTooShort)));
    assert!(s.validate_namespace("abcd").is_ok());
    assert!(s.validate_namespace("abcdefghijklmnopqrst").is_ok());
    assert!(matches!(
        s.validate_namespace("abcdefghijklmnopqrstu"),
        Err(Error::NamespaceIsTooLong)
    ));
}

#[test]
fn namespace_reserved_words_rejected() {
    let s = service();
    assert!(matches!(s.validate_namespace("admin"), Err(Error::InvalidNamespace)));
    assert!(matches!(s.validate_namespace("support"), Err(Error::InvalidNamespace)));
    assert!(matches!(s.validate_username("root"), Err(Error::InvalidNamespace)));
}

#[test]
fn namespace_alphabet_rejected() {
    let s = service();
    assert!(matches!(s.validate_namespace("ab_cd"), Err(Error::InvalidNamespace)));
    assert!(matches!(s.validate_namespace("AbCde"), Err(Error::InvalidNamespace)));
    assert!(matches!(s.validate_namespace("ab cd"), Err(Error::InvalidNamespace)));
}

#[test]
fn username_delegates_to_namespace() {
    let s = service();
    assert!(s.validate_username("alice-1").is_ok());
    assert!(matches!(s.validate_username("a"), Err(Error::NamespaceIsTooShort)));
}

#[test]
fn email_shapes() {
    let s = service();
    assert!(s.validate_email("alice@example.com", true).is_ok());
    assert!(matches!(s.validate_email("", true), Err(Error::EmailIsInvalid)));
    assert!(matches!(s.validate_email("alice", true), Err(Error::EmailIsInvalid)));
    assert!(matches!(s.validate_email("alice@example", true), Err(Error::EmailIsInvalid)));
    assert!(matches!(s.validate_email("a@b@example.com", true), Err(Error::EmailIsInvalid)));
    assert!(matches!(s.validate_email("@example.com", true), Err(Error::EmailIsInvalid)));
    assert!(matches!(s.validate_email("alice@", true), Err(Error::EmailIsInvalid)));
    assert!(matches!(s.validate_email("Alice@example.com", true), Err(Error::EmailIsInvalid)));
    assert!(matches!(s.validate_email("al ice@example.com", true), Err(Error::EmailIsInvalid)));
}

#[test]
fn email_blocklist() {
    let s = service();
    assert!(matches!(s.validate_email("bob@tempmail.example", true), Err(Error::EmailIsInvalid)));
    assert!(s.validate_email("bob@tempmail.example", false).is_ok());
    assert!(s.validate_email("bob@mail.example", true).is_ok());
}

#[test]
fn user_name_rules() {
    let s = service();
    assert!(s.validate_user_name("Alice O'Brien").is_ok());
    assert!(s.validate_user_name("Bob-2").is_ok());
    assert!(matches!(s.validate_user_name(""), Err(Error::UserNameIsTooShort)));
    assert!(matches!(
        s.validate_user_name("aaaaaaaaaaaaaaaaaaaaaaaaaaaaaaaaaaaaaaaaaaa"),
        Err(Error::UserNameIsTooLong)
    ));
    assert!(matches!(s.validate_user_name("a--b"), Err(Error::InvalidUserName)));
    assert!(matches!(s.validate_user_name("a__b"), Err(Error::InvalidUserName)));
    assert!(matches!(s.validate_user_name("a..b"), Err(Error::InvalidUserName)));
    assert!(matches!(s.validate_user_name("a''b"), Err(Error::InvalidUserName)));
    assert!(matches!(s.validate_user_name("a#b"), Err(Error::InvalidUserName)));
}

#[test]
fn description_rules() {
    let s = service();
    assert!(s.validate_user_description("hello").is_ok());
    let long: String = "x".repeat(421);
    assert!(matches!(s.validate_user_description(&long), Err(Error::UserDescriptionIsTooLong)));
    assert!(s.validate_group_description("a group").is_ok());
    assert!(matches!(s.validate_group_description(&long), Err(Error::GroupDescriptionIsTooLong)));
}

#[test]
fn group_name_rules() {
    let s = service();
    assert!(s.validate_group_name("My Team").is_ok());
    assert!(matches!(s.validate_group_name(""), Err(Error::GroupNameIsTooShort)));
    assert!(matches!(s.validate_group_name("x--y"), Err(Error::InvalidGroupName)));
}

#[test]
fn mail_driver_from_str() {
    assert!(matches!(MailDriver::from_str("ses"), Ok(MailDriver::Ses)));
    assert!(matches!(MailDriver::from_str("smtp"), Err(Error::InvalidArgument(_))));
    assert_eq!(MailDriver::Ses.as_str(), "ses");
}

#[test]
fn storage_driver_from_str() {
    assert!(matches!(StorageDriver::from_str("s3"), Ok(StorageDriver::S3)));
    assert!(matches!(StorageDriver::from_str("disk"), Err(Error::InvalidArgument(_))));
    assert_eq!(StorageDriver::S3.as_str(), "s3");
}

#[test]
fn clean_and_validate_env_names() {
    let mut c = test_config();
    assert!(c.clean_and_validate().is_ok());
    c.env = "staging".to_string();
    assert!(c.clean_and_validate().is_ok());
    c.env = "production".to_string();
    assert!(c.clean_and_validate().is_ok());
    c.env = "test".to_string();
    match c.clean_and_validate() {
        Err(Error::InvalidArgument(m)) => assert_eq!(m, "config: Invalid env: test"),
        other => panic!("unexpected: {:?}", other),
    }
}

#[test]
fn env_not_found_message() {
    match account_kernel::errors::env_not_found("APP_ENV") {
        Error::NotFound(m) => assert_eq!(m, "config: APP_ENV env var not found"),
        other => panic!("unexpected: {:?}", other),
    }
}
