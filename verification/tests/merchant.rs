use dealchain::{
    initialize_merchant, toggle_merchant_pause, ErrorCode, ErrorKind, Identity,
    InitializeMerchant, Merchant, MerchantInitialized, MerchantPauseToggled, ToggleMerchantPause,
};

fn merchant_key(n: u8) -> Identity {
    Identity::new([n; 32])
}

fn vacant(n: u8) -> InitializeMerchant {
    InitializeMerchant { merchant: None, authority: merchant_key(n) }
}

fn acme() -> Merchant {
    Merchant {
        authority: merchant_key(1),
        name: "Acme".to_string(),
        description: "Anvils".to_string(),
        total_coupons_created: 3,
        total_redemptions: 4,
        total_revenue: 5,
        rating_sum: 6,
        rating_count: 7,
        is_verified: false,
        is_paused: false,
        created_at: 10,
    }
}

#[test]
fn registering_a_merchant_starts_every_counter_at_zero() {
    let mut ctx = vacant(1);
    let event =
        initialize_merchant(&mut ctx, "Acme".to_string(), "Anvils and more".to_string(), 1_700_000_000)
            .unwrap();
    assert_eq!(
        event,
        MerchantInitialized {
            merchant: merchant_key(1),
            authority: merchant_key(1),
            timestamp: 1_700_000_000
        }
    );
    assert_eq!(
        ctx.merchant,
        Some(Merchant {
            authority: merchant_key(1),
            name: "Acme".to_string(),
            description: "Anvils and more".to_string(),
            total_coupons_created: 0,
            total_redemptions: 0,
            total_revenue: 0,
            rating_sum: 0,
            rating_count: 0,
            is_verified: false,
            is_paused: false,
            created_at: 1_700_000_000,
        })
    );
    assert_eq!(ctx.authority, merchant_key(1));
}

#[test]
fn an_empty_name_is_refused() {
    let mut ctx = vacant(1);
    let r = initialize_merchant(&mut ctx, String::new(), "d".to_string(), 0);
    assert_eq!(r, Err(ErrorCode::NameEmpty));
    assert_eq!(r.unwrap_err().kind(), ErrorKind::Validation);
    assert_eq!(ctx, vacant(1));
}

#[test]
fn a_name_of_one_hundred_characters_is_accepted_and_one_more_is_not() {
    let mut ctx = vacant(1);
    assert!(initialize_merchant(&mut ctx, "n".repeat(100), String::new(), 0).is_ok());
    let mut ctx = vacant(1);
    assert_eq!(
        initialize_merchant(&mut ctx, "n".repeat(101), String::new(), 0),
        Err(ErrorCode::NameTooLong)
    );
    assert_eq!(ctx, vacant(1));
}

#[test]
fn the_length_of_a_name_is_counted_in_characters() {
    let mut ctx = vacant(1);
    let name = "\u{e9}".repeat(100);
    assert_eq!(name.len(), 200);
    assert!(initialize_merchant(&mut ctx, name, String::new(), 0).is_ok());
    let mut ctx = vacant(1);
    assert_eq!(
        initialize_merchant(&mut ctx, "\u{e9}".repeat(101), String::new(), 0),
        Err(ErrorCode::NameTooLong)
    );
}

#[test]
fn a_description_of_five_hundred_characters_is_accepted_and_one_more_is_not() {
    let mut ctx = vacant(1);
    assert!(initialize_merchant(&mut ctx, "Acme".to_string(), "d".repeat(500), 0).is_ok());
    let mut ctx = vacant(1);
    assert_eq!(
        initialize_merchant(&mut ctx, "Acme".to_string(), "d".repeat(501), 0),
        Err(ErrorCode::DescriptionTooLong)
    );
    assert_eq!(ctx, vacant(1));
}

#[test]
fn control_characters_in_name_or_description_are_refused() {
    let mut ctx = vacant(1);
    assert_eq!(
        initialize_merchant(&mut ctx, "Ac\u{0}me".to_string(), String::new(), 0),
        Err(ErrorCode::InvalidUtf8)
    );
    assert_eq!(
        initialize_merchant(&mut ctx, "Acme".to_string(), "bell\u{7}".to_string(), 0),
        Err(ErrorCode::InvalidUtf8)
    );
    assert_eq!(ctx, vacant(1));
    assert!(initialize_merchant(&mut ctx, "Acme".to_string(), "two\nlines\tand a tab\r".to_string(), 0)
        .is_ok());
}

#[test]
fn the_first_violated_condition_of_a_registration_is_reported() {
    let mut ctx = vacant(1);
    assert_eq!(
        initialize_merchant(&mut ctx, String::new(), "d".repeat(501), 0),
        Err(ErrorCode::NameEmpty)
    );
    assert_eq!(
        initialize_merchant(&mut ctx, "n".repeat(101), "d".repeat(501), 0),
        Err(ErrorCode::NameTooLong)
    );
    assert_eq!(
        initialize_merchant(&mut ctx, "Ac\u{1}me".to_string(), "d".repeat(501), 0),
        Err(ErrorCode::DescriptionTooLong)
    );
}

#[test]
fn a_second_registration_under_the_same_authority_is_refused() {
    let mut ctx = vacant(1);
    initialize_merchant(&mut ctx, "Acme".to_string(), String::new(), 5).unwrap();
    let before = InitializeMerchant { merchant: ctx.merchant.clone(), authority: ctx.authority };
    let r = initialize_merchant(&mut ctx, "Other".to_string(), String::new(), 6);
    assert_eq!(r, Err(ErrorCode::MerchantAlreadyExists));
    assert_eq!(r.unwrap_err().kind(), ErrorKind::State);
    assert_eq!(ctx, before);
    let r = initialize_merchant(&mut ctx, String::new(), String::new(), 6);
    assert_eq!(r, Err(ErrorCode::MerchantAlreadyExists));
}

#[test]
fn the_authority_pauses_and_resumes_its_merchant() {
    let mut ctx = ToggleMerchantPause { merchant: acme(), authority: merchant_key(1) };
    let event = toggle_merchant_pause(&mut ctx, 50).unwrap();
    assert_eq!(
        event,
        MerchantPauseToggled { merchant: merchant_key(1), is_paused: true, timestamp: 50 }
    );
    let mut paused = acme();
    paused.is_paused = true;
    assert_eq!(ctx.merchant, paused);
    let event = toggle_merchant_pause(&mut ctx, 51).unwrap();
    assert_eq!(
        event,
        MerchantPauseToggled { merchant: merchant_key(1), is_paused: false, timestamp: 51 }
    );
    assert_eq!(ctx.merchant, acme());
}

#[test]
fn nobody_but_the_authority_pauses_a_merchant() {
    let mut ctx = ToggleMerchantPause { merchant: acme(), authority: merchant_key(2) };
    let r = toggle_merchant_pause(&mut ctx, 50);
    assert_eq!(r, Err(ErrorCode::Unauthorized));
    assert_eq!(r.unwrap_err().kind(), ErrorKind::Authorization);
    assert_eq!(ctx.merchant, acme());
}
