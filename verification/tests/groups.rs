use account_kernel::config::Aws;
use account_kernel::config::Config;
use account_kernel::config::Database;
use account_kernel::config::Http;
use account_kernel::config::Mail;
use account_kernel::config::MailDriver;
use account_kernel::config::S3;
use account_kernel::config::Sentry;
use account_kernel::config::Ses;
use account_kernel::config::Smtp;
use account_kernel::config::Storage;
use account_kernel::config::StorageDriver;
use account_kernel::config::Stripe;
use account_kernel::config::StripeData;
use account_kernel::config::StripePrices;
use account_kernel::config::StripeProducts;
use account_kernel::config::Worker;
use account_kernel::entities::Group;
use account_kernel::entities::User;
use account_kernel::errors::Error;
use account_kernel::repository::Repository;
use account_kernel::service::AcceptGroupInvitationInput;
use account_kernel::service::CancelGroupInvitationInput;
use account_kernel::service::CompleteRegistrationInput;
use account_kernel::service::CreateGroupInput;
use account_kernel::service::DeclineGroupInvitationInput;
use account_kernel::service::InvitePeopleInGroupInput;
use account_kernel::service::Message;
use account_kernel::service::QuitGroupInput;
use account_kernel::service::RegisterInput;
use account_kernel::service::RemoveMemberFromGroupInput;
use account_kernel::service::Service;

fn test_config() -> Config {
    Config {
        env: "dev".to_string(),
        base_url: "http://localhost".to_string(),
        master_key: vec![7u8; 32],
        old_master_key: None,
        self_hosted: true,
        debug: false,
        http: Http { port: 8000, access_logs: false, public_directory: "public".to_string() },
        database: Database { url: "postgres://localhost/app".to_string(), pool_size: 10 },
        smtp: Smtp { port: None, host: None, username: None, password: None },
        mail: Mail {
            driver: MailDriver::Ses,
            notify_address: "noreply@example.com".to_string(),
            domains_blocklist_file: "blocklist.txt".to_string(),
            domains_blocklist: vec!["tempmail.example".to_string()],
        },
        storage: Storage { driver: StorageDriver::S3, base_direcotry: String::new() },
        stripe: Stripe {
            secret_key: "sk".to_string(),
            public_key: "pk".to_string(),
            webhook_secret: "wh".to_string(),
            data: StripeData {
                taxes: vec![],
                products: StripeProducts {
                    starter: "prod_a".to_string(),
                    pro: "prod_b".to_string(),
                    ultra: "prod_c".to_string(),
                },
                prices: StripePrices {
                    starter: "price_a".to_string(),
                    pro: "price_b".to_string(),
                    ultra: "price_c".to_string(),
                },
            },
            json_data: "{}".to_string(),
        },
        aws: Aws {
            secret_access_key: None,
            access_key_id: None,
            default_region: "eu-central-1".to_string(),
        },
        ses: Ses { region: "eu-central-1".to_string() },
        s3: S3 { region: "eu-central-1".to_string(), bucket: None },
        worker: Worker { concurrency: 4 },
        sentry: Sentry { security_report_uri: None, ingest_domain: None, dsn: None },
    }
}

fn service() -> Service {
    Service::new(test_config())
}

fn activate(s: &Service, repo: &mut Repository, email: &str, username: &str, now: u64) -> User {
    let input = RegisterInput { email: email.to_string(), username: username.to_string() };
    let (pu, msg) = s.register(repo, None, input, now).expect("registration should succeed");
    let code = match msg {
        Message::SendRegisterEmail { code, .. } => String::from_utf8(code).unwrap(),
        other => panic!("unexpected message: {:?}", other),
    };
    s.complete_registration(repo, CompleteRegistrationInput { pending_user_id: pu.id, code }, now)
        .expect("completion should succeed")
}

fn make_group(s: &Service, repo: &mut Repository, owner: &User, path: &str, now: u64) -> Group {
    let input = CreateGroupInput {
        name: "Team".to_string(),
        path: path.to_string(),
        description: "a team".to_string(),
    };
    s.create_group(repo, Some(owner.clone()), input, now).expect("group should be created")
}

fn invite(
    s: &Service,
    repo: &mut Repository,
    inviter: &User,
    group_id: u128,
    username: &str,
    now: u64,
) -> Result<account_kernel::entities::GroupInvitation, Error> {
    let input = InvitePeopleInGroupInput { group_id, usernames: vec![username.to_string()] };
    let mut results = s
        .invite_people_in_group(repo, Some(inviter.clone()), input, now)
        .expect("invite call should go through");
    assert_eq!(results.len(), 1);
    results.remove(0).map(|(inv, _msg)| inv)
}

#[test]
fn group_path_shares_the_namespace_with_usernames() {
    let s = service();
    let mut repo = Repository::new();
    let alice = activate(&s, &mut repo, "a@example.com", "alice", 1);
    let input = CreateGroupInput {
        name: "Team".to_string(),
        path: "alice".to_string(),
        description: String::new(),
    };
    assert!(matches!(
        s.create_group(&mut repo, Some(alice.clone()), input, 2),
        Err(Error::NamespaceAlreadyExists)
    ));
    let g = make_group(&s, &mut repo, &alice, "the-team", 3);
    assert_eq!(g.path, b"the-team".to_vec());
    assert!(s.check_namespace_exists(&repo, b"the-team"));
    assert_eq!(repo.memberships.len(), 1);
}

#[test]
fn invites_collect_per_username_outcomes() {
    let s = service();
    let mut repo = Repository::new();
    let alice = activate(&s, &mut repo, "a@example.com", "alice", 1);
    let bob = activate(&s, &mut repo, "b@example.com", "bobby", 2);
    let _carol = activate(&s, &mut repo, "c@example.com", "carol", 3);
    let g = make_group(&s, &mut repo, &alice, "the-team", 4);
    let input = InvitePeopleInGroupInput {
        group_id: g.id,
        usernames: vec![
            "bobby".to_string(),
            "alice".to_string(),
            "ghost".to_string(),
            "carol".to_string(),
        ],
    };
    let results = s
        .invite_people_in_group(&mut repo, Some(alice.clone()), input, 5)
        .expect("invite call should go through");
    assert_eq!(results.len(), 4);
    assert!(results[0].is_ok());
    assert!(matches!(results[1], Err(Error::PermissionDenied)), "self-invite");
    assert!(matches!(results[2], Err(Error::UserNotFound)));
    assert!(results[3].is_ok());
    let ok_entries = results.iter().filter(|e| e.is_ok()).count();
    assert_eq!(ok_entries, 2);
    assert_eq!(repo.invitations.len(), 2);
    match &results[0] {
        Ok((inv, Message::SendGroupInvitationEmail { email })) => {
            assert_eq!(inv.invitee_id, bob.id);
            assert_eq!(email, b"b@example.com");
        }
        other => panic!("unexpected: {:?}", other),
    }
    // inviting bob again conflicts with the standing invitation
    assert!(matches!(
        invite(&s, &mut repo, &alice, g.id, "bobby", 6),
        Err(Error::AlreadyInvited)
    ));
    let _ = bob;
}

#[test]
fn only_members_may_invite() {
    let s = service();
    let mut repo = Repository::new();
    let alice = activate(&s, &mut repo, "a@example.com", "alice", 1);
    let mallory = activate(&s, &mut repo, "m@example.com", "mallory", 2);
    let g = make_group(&s, &mut repo, &alice, "the-team", 3);
    let input =
        InvitePeopleInGroupInput { group_id: g.id, usernames: vec!["alice".to_string()] };
    assert!(matches!(
        s.invite_people_in_group(&mut repo, Some(mallory.clone()), input, 4),
        Err(Error::PermissionDenied)
    ));
}

#[test]
fn accepting_is_atomic_and_owned_by_the_invitee() {
    let s = service();
    let mut repo = Repository::new();
    let alice = activate(&s, &mut repo, "a@example.com", "alice", 1);
    let bob = activate(&s, &mut repo, "b@example.com", "bobby", 2);
    let carol = activate(&s, &mut repo, "c@example.com", "carol", 3);
    let g = make_group(&s, &mut repo, &alice, "the-team", 4);
    let inv = invite(&s, &mut repo, &alice, g.id, "bobby", 5).expect("invite should succeed");

    let members_before = repo.memberships.len();
    let invitations_before = repo.invitations.len();
    assert!(matches!(
        s.accept_group_invitation(
            &mut repo,
            Some(carol.clone()),
            AcceptGroupInvitationInput { invitation_id: inv.id },
            6,
        ),
        Err(Error::PermissionDenied)
    ));
    // a refused acceptance leaves neither side effect behind
    assert_eq!(repo.memberships.len(), members_before);
    assert_eq!(repo.invitations.len(), invitations_before);

    s.accept_group_invitation(
        &mut repo,
        Some(bob.clone()),
        AcceptGroupInvitationInput { invitation_id: inv.id },
        7,
    )
    .expect("invitee may accept");
    // both effects landed together
    assert_eq!(repo.memberships.len(), members_before + 1);
    assert_eq!(repo.invitations.len(), invitations_before - 1);
    assert!(repo
        .memberships
        .iter()
        .any(|m| m.group_id == g.id && m.user_id == bob.id));
}

#[test]
fn declining_deletes_the_invitation_only() {
    let s = service();
    let mut repo = Repository::new();
    let alice = activate(&s, &mut repo, "a@example.com", "alice", 1);
    let bob = activate(&s, &mut repo, "b@example.com", "bobby", 2);
    let g = make_group(&s, &mut repo, &alice, "the-team", 3);
    let inv = invite(&s, &mut repo, &alice, g.id, "bobby", 4).expect("invite should succeed");
    assert!(matches!(
        s.decline_group_invitation(
            &mut repo,
            Some(alice.clone()),
            DeclineGroupInvitationInput { invitation_id: inv.id },
        ),
        Err(Error::PermissionDenied)
    ));
    s.decline_group_invitation(
        &mut repo,
        Some(bob.clone()),
        DeclineGroupInvitationInput { invitation_id: inv.id },
    )
    .expect("invitee may decline");
    assert_eq!(repo.invitations.len(), 0);
    assert_eq!(repo.memberships.len(), 1);
}

#[test]
fn cancelling_needs_the_inviter_or_an_administrator() {
    let s = service();
    let mut repo = Repository::new();
    let alice = activate(&s, &mut repo, "a@example.com", "alice", 1);
    let bob = activate(&s, &mut repo, "b@example.com", "bobby", 2);
    let g = make_group(&s, &mut repo, &alice, "the-team", 3);
    let inv = invite(&s, &mut repo, &alice, g.id, "bobby", 4).expect("invite should succeed");
    assert!(matches!(
        s.cancel_group_invitation(
            &mut repo,
            Some(bob.clone()),
            CancelGroupInvitationInput { invitation_id: inv.id },
        ),
        Err(Error::PermissionDenied)
    ));
    s.cancel_group_invitation(
        &mut repo,
        Some(alice.clone()),
        CancelGroupInvitationInput { invitation_id: inv.id },
    )
    .expect("inviter may cancel");
    assert_eq!(repo.invitations.len(), 0);
}

#[test]
fn removing_members_and_quitting() {
    let s = service();
    let mut repo = Repository::new();
    let alice = activate(&s, &mut repo, "a@example.com", "alice", 1);
    let bob = activate(&s, &mut repo, "b@example.com", "bobby", 2);
    let carol = activate(&s, &mut repo, "c@example.com", "carol", 3);
    let g = make_group(&s, &mut repo, &alice, "the-team", 4);
    for name in ["bobby", "carol"] {
        let inv = invite(&s, &mut repo, &alice, g.id, name, 5).expect("invite should succeed");
        let invitee = if name == "bobby" { bob.clone() } else { carol.clone() };
        s.accept_group_invitation(
            &mut repo,
            Some(invitee),
            AcceptGroupInvitationInput { invitation_id: inv.id },
            6,
        )
        .expect("invitee may accept");
    }
    assert_eq!(repo.memberships.len(), 3);
    // a plain member may not remove another member
    assert!(matches!(
        s.remove_member_from_group(
            &mut repo,
            Some(bob.clone()),
            RemoveMemberFromGroupInput { group_id: g.id, username: "carol".to_string() },
        ),
        Err(Error::PermissionDenied)
    ));
    // an administrator may not remove themselves this way
    assert!(matches!(
        s.remove_member_from_group(
            &mut repo,
            Some(alice.clone()),
            RemoveMemberFromGroupInput { group_id: g.id, username: "alice".to_string() },
        ),
        Err(Error::PermissionDenied)
    ));
    s.remove_member_from_group(
        &mut repo,
        Some(alice.clone()),
        RemoveMemberFromGroupInput { group_id: g.id, username: "carol".to_string() },
    )
    .expect("administrator may remove a member");
    assert_eq!(repo.memberships.len(), 2);
    s.quit_group(&mut repo, Some(bob.clone()), QuitGroupInput { group_id: g.id })
        .expect("member may quit");
    assert_eq!(repo.memberships.len(), 1);
    assert!(matches!(
        s.quit_group(&mut repo, Some(bob.clone()), QuitGroupInput { group_id: g.id }),
        Err(Error::GroupMemberNotFound)
    ));
}
