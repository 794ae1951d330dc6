use gistit::credential::{
    answer_credential_request, conclude, negotiate, select_agent_user, transport_answer, SSH_KEY,
};
use gistit::error::CredentialError;
use gistit::status::{
    should_stage, staging_verdict, VERDICT_ABORT, VERDICT_ADD, VERDICT_SKIP, WT_DELETED,
    WT_MODIFIED, WT_NEW,
};

#[test]
fn status_bits_are_those_of_the_repository_library() {
    assert_eq!(WT_NEW, git2::Status::WT_NEW.bits());
    assert_eq!(WT_MODIFIED, git2::Status::WT_MODIFIED.bits());
    assert_eq!(WT_DELETED, git2::Status::WT_DELETED.bits());
    assert_eq!(SSH_KEY, git2::CredentialType::SSH_KEY.bits());
}

#[test]
fn changed_paths_are_staged() {
    assert!(should_stage(WT_NEW));
    assert!(should_stage(WT_MODIFIED));
    assert!(should_stage(WT_DELETED));
    assert!(should_stage(WT_NEW | WT_MODIFIED));
    assert!(should_stage(WT_MODIFIED | git2::Status::INDEX_MODIFIED.bits()));
    assert!(should_stage(WT_DELETED | git2::Status::INDEX_NEW.bits()));
}

#[test]
fn unchanged_paths_are_not_staged() {
    assert!(!should_stage(0));
    assert!(!should_stage(git2::Status::CURRENT.bits()));
    assert!(!should_stage(git2::Status::INDEX_NEW.bits()));
    assert!(!should_stage(git2::Status::INDEX_MODIFIED.bits()));
    assert!(!should_stage(git2::Status::IGNORED.bits()));
    assert!(!should_stage(git2::Status::WT_RENAMED.bits()));
    assert!(!should_stage(git2::Status::WT_TYPECHANGE.bits()));
    assert!(!should_stage(git2::Status::CONFLICTED.bits()));
}

#[test]
fn staging_follows_the_three_bits_for_every_combination() {
    let mut bits: u32 = 0;
    while bits < (1 << 16) {
        let expected = bits & 128 != 0 || bits & 256 != 0 || bits & 512 != 0;
        assert_eq!(should_stage(bits), expected);
        assert_eq!(
            staging_verdict(Some(bits)),
            if expected { 0 } else { 1 }
        );
        bits += 1;
    }
}

#[test]
fn verdicts_tell_add_skip_and_abort_apart() {
    assert_eq!(VERDICT_ADD, 0);
    assert_eq!(VERDICT_SKIP, 1);
    assert_eq!(VERDICT_ABORT, -7);
    assert_eq!(staging_verdict(Some(WT_NEW)), 0);
    assert_eq!(staging_verdict(Some(0)), 1);
    assert_eq!(staging_verdict(None), -7);
    assert!(staging_verdict(None) < 0);
}

#[test]
fn no_ssh_key_on_offer_means_no_authentication() {
    let plain = git2::CredentialType::USER_PASS_PLAINTEXT.bits();
    assert_eq!(
        select_agent_user(Some("git"), plain),
        Err(CredentialError::NoAuthentication)
    );
    assert_eq!(select_agent_user(None, 0), Err(CredentialError::NoAuthentication));
    assert!(matches!(
        negotiate(Some("git"), plain),
        Err(CredentialError::NoAuthentication)
    ));
    assert!(matches!(
        negotiate(Some("git"), git2::CredentialType::DEFAULT.bits()),
        Err(CredentialError::NoAuthentication)
    ));
}

#[test]
fn ssh_key_on_offer_asks_the_agent_for_the_user() {
    assert_eq!(select_agent_user(Some("git"), SSH_KEY), Ok("git"));
    assert_eq!(
        select_agent_user(
            Some("alice"),
            SSH_KEY | git2::CredentialType::USER_PASS_PLAINTEXT.bits()
        ),
        Ok("alice")
    );
    assert_eq!(
        select_agent_user(None, SSH_KEY),
        Err(CredentialError::AuthenticationFailed)
    );
}

#[test]
fn negotiation_gives_the_same_answer_every_time() {
    for _ in 0..3 {
        let answer = negotiate(Some("git"), SSH_KEY).unwrap();
        assert!(answer.has_username());
        assert_eq!(answer.credtype(), SSH_KEY);
        assert!(matches!(
            negotiate(None, SSH_KEY),
            Err(CredentialError::AuthenticationFailed)
        ));
    }
}

#[test]
fn a_user_the_agent_cannot_be_asked_for_fails_to_authenticate() {
    assert!(matches!(
        negotiate(Some("gi\0t"), SSH_KEY),
        Err(CredentialError::AuthenticationFailed)
    ));
}

#[test]
fn agent_reply_decides_the_answer() {
    assert!(matches!(
        conclude(Err(git2::Error::from_str("no key"))),
        Err(CredentialError::AuthenticationFailed)
    ));
    let reply = git2::Cred::ssh_key_from_agent("git");
    assert!(conclude(reply).is_ok());
}

#[test]
fn transport_is_told_why_there_is_no_credential() {
    let refused = answer_credential_request(
        "git@gist.github.com:abc.git",
        Some("git"),
        git2::CredentialType::USER_PASS_PLAINTEXT.bits(),
    );
    assert_eq!(
        refused.err().unwrap().message(),
        "No authentication available. Please make sure you have the correct access rights"
    );
    let failed = answer_credential_request("git@gist.github.com:abc.git", None, SSH_KEY);
    assert_eq!(
        failed.err().unwrap().message(),
        "Failed to authenticate. Please make sure you have the correct access rights"
    );
    assert!(answer_credential_request("git@gist.github.com:abc.git", Some("git"), SSH_KEY).is_ok());
}

#[test]
fn negotiated_answer_is_handed_to_the_transport() {
    let granted = transport_answer(Ok(git2::Cred::ssh_key_from_agent("git").unwrap()));
    let granted = granted.ok().unwrap();
    assert!(granted.has_username());
    assert_eq!(granted.credtype(), SSH_KEY);
    assert_eq!(
        transport_answer(Err(CredentialError::NoAuthentication))
            .err()
            .unwrap()
            .message(),
        "No authentication available. Please make sure you have the correct access rights"
    );
    assert_eq!(
        transport_answer(Err(CredentialError::AuthenticationFailed))
            .err()
            .unwrap()
            .message(),
        "Failed to authenticate. Please make sure you have the correct access rights"
    );
}

#[test]
fn user_name_with_a_nul_is_refused_to_the_transport() {
    let refused = answer_credential_request("git@gist.github.com:abc.git", Some("g\0it"), SSH_KEY);
    assert_eq!(
        refused.err().unwrap().message(),
        "Failed to authenticate. Please make sure you have the correct access rights"
    );
}
