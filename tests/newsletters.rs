use zero2prod::domain::SubscriberEmail;
use zero2prod::email_client::DeliveryError;
use zero2prod::newsletters::{
    authenticate, basic_authentication, credentials_from_decoded, get_confirmed_subscribers, publish_response, AuthError,
    ConfirmedSubscriber, CredentialCheckError, Fanout, FanoutAction, PublishError,
    UnexpectedError,
};
use zero2prod::subscription::{StoredSubscription, SubscriptionStatus};

fn header(credentials: &str) -> Vec<u8> {
    format!("Basic {}", base64::encode(credentials)).into_bytes()
}

fn row(email: &str, status: &str) -> StoredSubscription {
    StoredSubscription { email: email.to_string(), status: status.to_string() }
}

fn confirmed(email: &str) -> Result<ConfirmedSubscriber, String> {
    Ok(ConfirmedSubscriber { email: SubscriberEmail::parse(email.to_string()).unwrap() })
}

fn sent_to(action: &FanoutAction) -> Option<String> {
    match action {
        FanoutAction::Send(email) => Some(email.as_ref().to_string()),
        _ => None,
    }
}

#[test]
fn basic_credentials_are_decoded() {
    let h = header("admin:s3cr3t");
    let credentials = basic_authentication(Some(h.as_slice())).unwrap();
    assert_eq!(credentials.username, "admin");
    assert_eq!(credentials.password.expose_secret(), "s3cr3t");
}

#[test]
fn the_password_is_everything_after_the_first_colon() {
    let h = header("admin:pa:ss");
    let credentials = basic_authentication(Some(h.as_slice())).unwrap();
    assert_eq!(credentials.username, "admin");
    assert_eq!(credentials.password.expose_secret(), "pa:ss");
}

#[test]
fn empty_username_and_password_are_read_as_such() {
    let h = header(":");
    let credentials = basic_authentication(Some(h.as_slice())).unwrap();
    assert_eq!(credentials.username, "");
    assert_eq!(credentials.password.expose_secret(), "");
}

#[test]
fn a_missing_header_is_refused() {
    assert!(matches!(basic_authentication(None), Err(AuthError::MissingHeader)));
}

#[test]
fn a_header_with_non_visible_bytes_is_refused() {
    let h = b"Basic \xff".to_vec();
    assert!(matches!(
        basic_authentication(Some(h.as_slice())),
        Err(AuthError::HeaderNotVisibleAscii)
    ));
}

#[test]
fn another_scheme_is_refused() {
    let h = format!("Bearer {}", base64::encode("admin:pw")).into_bytes();
    assert!(matches!(basic_authentication(Some(h.as_slice())), Err(AuthError::NotBasicScheme)));
    let short = b"Basic".to_vec();
    assert!(matches!(
        basic_authentication(Some(short.as_slice())),
        Err(AuthError::NotBasicScheme)
    ));
}

#[test]
fn invalid_base64_is_refused() {
    let h = b"Basic not-base64!".to_vec();
    assert!(matches!(basic_authentication(Some(h.as_slice())), Err(AuthError::InvalidBase64)));
}

#[test]
fn credentials_that_are_not_utf8_are_refused() {
    let h = format!("Basic {}", base64::encode([0xffu8, 0xfe, b':', b'a'])).into_bytes();
    assert!(matches!(basic_authentication(Some(h.as_slice())), Err(AuthError::InvalidUtf8)));
}

#[test]
fn credentials_without_a_colon_are_refused() {
    let h = header("admin");
    assert!(matches!(basic_authentication(Some(h.as_slice())), Err(AuthError::MissingPassword)));
}

#[test]
fn publish_without_authorization_is_401_with_the_challenge() {
    let error = authenticate(None).err().unwrap();
    let response = error.error_response();
    assert_eq!(response.status, 401);
    assert_eq!(response.www_authenticate.as_deref(), Some("Basic realm=\"publish\""));
}

#[test]
fn publish_with_a_malformed_basic_payload_is_401() {
    let h = b"Basic %%%".to_vec();
    let error = authenticate(Some(h.as_slice())).err().unwrap();
    let response = error.error_response();
    assert_eq!(response.status, 401);
    assert_eq!(response.www_authenticate.as_deref(), Some("Basic realm=\"publish\""));
}

#[test]
fn refused_credentials_are_401_and_a_broken_store_is_500() {
    let refused = PublishError::from_credential_check(CredentialCheckError::InvalidCredentials);
    assert_eq!(refused.error_response().status, 401);
    let broken =
        PublishError::from_credential_check(CredentialCheckError::Unexpected("down".to_string()));
    let response = broken.error_response();
    assert_eq!(response.status, 500);
    assert!(response.www_authenticate.is_none());
}

#[test]
fn a_successful_publish_is_200() {
    let response = publish_response(&Ok(()));
    assert_eq!(response.status, 200);
    assert!(response.www_authenticate.is_none());
}

#[test]
fn only_confirmed_rows_are_listed() {
    let rows = vec![
        row("ursula_le_guin11@gmail.com", "pending_confirmation"),
        row("ursula_le_guin12@gmail.com", "confirmed"),
        row("other@gmail.com", "unknown"),
    ];
    let listed = get_confirmed_subscribers(&rows);
    assert_eq!(listed.len(), 1);
    assert_eq!(listed[0].as_ref().unwrap().email.as_ref(), "ursula_le_guin12@gmail.com");
}

#[test]
fn an_invalid_stored_email_spoils_only_its_own_entry() {
    let rows = vec![
        row("first@gmail.com", "confirmed"),
        row("not-an-email", "confirmed"),
        row("third@gmail.com", "confirmed"),
    ];
    let listed = get_confirmed_subscribers(&rows);
    assert_eq!(listed.len(), 3);
    assert_eq!(listed[0].as_ref().unwrap().email.as_ref(), "first@gmail.com");
    assert_eq!(listed[1].as_ref().unwrap_err(), "not-an-email is not a valid subscriber email.");
    assert_eq!(listed[2].as_ref().unwrap().email.as_ref(), "third@gmail.com");
}

#[test]
fn newsletters_are_not_delivered_to_unconfirmed_subscribers() {
    let rows = vec![row("ursula_le_guin11@gmail.com", "pending_confirmation")];
    let mut fanout = Fanout::new(get_confirmed_subscribers(&rows));
    match fanout.next_action() {
        FanoutAction::Finished(result) => assert_eq!(publish_response(&result).status, 200),
        _ => panic!("a send was asked for"),
    }
}

#[test]
fn newsletters_are_delivered_to_confirmed_subscribers() {
    let rows = vec![row("ursula_le_guin12@gmail.com", "confirmed")];
    let mut fanout = Fanout::new(get_confirmed_subscribers(&rows));
    let first = fanout.next_action();
    assert_eq!(sent_to(&first).as_deref(), Some("ursula_le_guin12@gmail.com"));
    fanout.record_delivery(Ok(()));
    match fanout.next_action() {
        FanoutAction::Finished(result) => assert_eq!(publish_response(&result).status, 200),
        _ => panic!("the fan-out did not finish"),
    }
}

#[test]
fn publish_with_no_confirmed_subscriber_sends_nothing_and_is_200() {
    let mut fanout = Fanout::new(Vec::new());
    match fanout.next_action() {
        FanoutAction::Finished(result) => assert_eq!(publish_response(&result).status, 200),
        _ => panic!("a send was asked for"),
    }
}

#[test]
fn invalid_entries_are_skipped_and_the_rest_are_sent() {
    let mut fanout = Fanout::new(vec![
        Err("bad is not a valid subscriber email.".to_string()),
        confirmed("a@gmail.com"),
    ]);
    match fanout.next_action() {
        FanoutAction::Skip(reason) => assert_eq!(reason, "bad is not a valid subscriber email."),
        _ => panic!("the invalid entry was not skipped"),
    }
    assert_eq!(sent_to(&fanout.next_action()).as_deref(), Some("a@gmail.com"));
    fanout.record_delivery(Ok(()));
    assert!(matches!(fanout.next_action(), FanoutAction::Finished(Ok(()))));
}

#[test]
fn the_first_failed_send_stops_the_fanout_with_500() {
    let mut fanout = Fanout::new(vec![
        confirmed("a@gmail.com"),
        confirmed("b@gmail.com"),
        confirmed("c@gmail.com"),
    ]);
    assert_eq!(sent_to(&fanout.next_action()).as_deref(), Some("a@gmail.com"));
    fanout.record_delivery(Ok(()));
    assert_eq!(sent_to(&fanout.next_action()).as_deref(), Some("b@gmail.com"));
    fanout.record_delivery(Err(DeliveryError::ServerRejected(500)));
    for _ in 0..3 {
        match fanout.next_action() {
            FanoutAction::Finished(Err(error)) => {
                assert_eq!(error.error_response().status, 500);
                match error {
                    PublishError::UnexpectedError(UnexpectedError::Delivery { recipient, cause }) => {
                        assert_eq!(recipient.as_ref(), "b@gmail.com");
                        assert_eq!(cause, DeliveryError::ServerRejected(500));
                    }
                    _ => panic!("not a delivery failure"),
                }
            }
            _ => panic!("the fan-out went on after a failed send"),
        }
    }
}

#[test]
fn an_outstanding_send_is_asked_for_again() {
    let mut fanout = Fanout::new(vec![confirmed("a@gmail.com"), confirmed("b@gmail.com")]);
    assert_eq!(sent_to(&fanout.next_action()).as_deref(), Some("a@gmail.com"));
    assert_eq!(sent_to(&fanout.next_action()).as_deref(), Some("a@gmail.com"));
}

#[test]
fn decoded_credentials_are_split_at_the_first_colon() {
    let credentials = credentials_from_decoded(b"le guin:a:b".to_vec()).unwrap();
    assert_eq!(credentials.username, "le guin");
    assert_eq!(credentials.password.expose_secret(), "a:b");
    assert!(matches!(credentials_from_decoded(b"nocolon".to_vec()), Err(AuthError::MissingPassword)));
    assert!(matches!(credentials_from_decoded(vec![0xc3, b':']), Err(AuthError::InvalidUtf8)));
}

#[test]
fn a_confirmed_subscriber_is_listed_exactly_once() {
    let mut rows = vec![
        row("a@gmail.com", SubscriptionStatus::Confirmed.as_str()),
        row("b@gmail.com", SubscriptionStatus::PendingConfirmation.as_str()),
        row("c@gmail.com", SubscriptionStatus::PendingConfirmation.as_str()),
    ];
    let before = get_confirmed_subscribers(&rows);
    assert!(before.iter().all(|e| e.as_ref().unwrap().email.as_ref() != "b@gmail.com"));
    rows[1].status = SubscriptionStatus::PendingConfirmation.confirm().as_str().to_string();
    let after = get_confirmed_subscribers(&rows);
    let count = after
        .iter()
        .filter(|e| e.as_ref().unwrap().email.as_ref() == "b@gmail.com")
        .count();
    assert_eq!(count, 1);
    assert_eq!(after.len(), 2);
}
