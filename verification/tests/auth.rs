use chorus::errors::FieldFormatError;
use chorus::types::schema::auth::{
    check_email, AuthEmail, AuthPassword, AuthUsername, RegisterSchema, RegisterSchemaOptions,
};

#[test]
fn well_formed_addresses_pass() {
    for address in [
        "me@mail.de",
        "a@b.cd",
        "first.last+tag@sub.example.org",
        "UPPER_case%1-2@EXAMPLE-host.COM",
        "x@1.2.ab",
        "a@-.zz",
        "....@....aa",
    ] {
        assert!(check_email(address.as_bytes()), "{address}");
        assert_eq!(
            AuthEmail::new(address.to_string()),
            Ok(AuthEmail { email: address.to_string() })
        );
    }
}

#[test]
fn malformed_addresses_fail() {
    for address in [
        "",
        "@",
        "p@p.p",
        "a@b.c",
        "@b.cd",
        "a@.cd",
        "a@b.",
        "a@bcd",
        "ab.cd",
        "a@b.c1",
        "a@b.cd ",
        " a@b.cd",
        "a@b@c.de",
        "a b@c.de",
        "a@b_c.de",
        "a@b.cd\n",
        "ä@b.cd",
        "a@b.cä",
        "a@b.çd",
        "a!@b.cd",
    ] {
        assert!(!check_email(address.as_bytes()), "{address}");
        assert_eq!(AuthEmail::new(address.to_string()), Err(FieldFormatError::EmailError));
    }
}

#[test]
fn username_bounds_are_inclusive() {
    assert_eq!(AuthUsername::new("ab".to_string()), Ok(AuthUsername { username: "ab".to_string() }));
    assert!(AuthUsername::new("a".repeat(32)).is_ok());
    assert_eq!(AuthUsername::new("a".repeat(33)), Err(FieldFormatError::UsernameError));
    assert_eq!(AuthUsername::new(String::new()), Err(FieldFormatError::UsernameError));
    // Length is counted in bytes.
    assert!(AuthUsername::new("ä".to_string()).is_ok());
    assert!(AuthUsername::new("ä".repeat(16)).is_ok());
    assert_eq!(AuthUsername::new("ä".repeat(17)), Err(FieldFormatError::UsernameError));
}

#[test]
fn password_bounds_are_inclusive() {
    assert_eq!(AuthPassword::new("a".to_string()), Ok(AuthPassword { password: "a".to_string() }));
    assert!(AuthPassword::new("a".repeat(72)).is_ok());
    assert_eq!(AuthPassword::new("a".repeat(73)), Err(FieldFormatError::PasswordError));
}

#[test]
fn builder_starts_from_name_and_consent() {
    let options = RegisterSchema::builder("Testy", true);
    assert_eq!(
        options,
        RegisterSchemaOptions {
            username: "Testy".to_string(),
            password: None,
            consent: true,
            email: None,
            fingerprint: None,
            invite: None,
            date_of_birth: None,
            gift_code_sku_id: None,
            captcha_key: None,
            promotional_email_opt_in: None,
        }
    );
    let built = options.clone().build().unwrap();
    assert_eq!(built.into_options(), options);
}

#[test]
fn registration_reports_the_first_fault() {
    let everything_wrong = RegisterSchemaOptions {
        email: Some("nope".to_string()),
        password: Some(String::new()),
        ..RegisterSchema::builder("T", false)
    };
    assert_eq!(everything_wrong.clone().build(), Err(FieldFormatError::UsernameError));
    let named = RegisterSchemaOptions { username: "Test".to_string(), ..everything_wrong };
    assert_eq!(named.clone().build(), Err(FieldFormatError::EmailError));
    let addressed = RegisterSchemaOptions { email: Some("me@mail.de".to_string()), ..named };
    assert_eq!(addressed.clone().build(), Err(FieldFormatError::PasswordError));
    let secured = RegisterSchemaOptions { password: Some("secret".to_string()), ..addressed };
    assert_eq!(secured.clone().build(), Err(FieldFormatError::ConsentError));
    let consenting = RegisterSchemaOptions { consent: true, ..secured };
    assert_eq!(consenting.clone().build().unwrap().into_options(), consenting);
}
