use std::str::FromStr;

use allowance_core::currency_format::{CurrencyFormat, CurrencyFormatParseError};
use allowance_core::{
    EmailAddress, Role, RoleParseError, Schedule, ScheduleParseError, Timestamp,
    TransactionType, TransactionTypeParseError, Weekday, UID, URL,
};

#[test]
fn currency_format_from_str() {
    assert_eq!(
        "#{}".parse::<CurrencyFormat>().unwrap(),
        CurrencyFormat::new("#{}"),
    );
}

#[test]
fn currency_format_to_str() {
    let source = "#{}";

    let a = source.parse::<CurrencyFormat>().unwrap();
    assert_eq!(a.to_string(), source);
}

#[test]
fn currency_format_parts() {
    let a = CurrencyFormat::new("USD {} only");
    assert_eq!(a.prefix, "USD ");
    assert_eq!(a.suffix, " only");

    let b = CurrencyFormat::new("kr");
    assert_eq!(b.prefix, "kr");
    assert_eq!(b.suffix, "");
    assert_eq!(b.to_string(), "kr{}");

    let c = CurrencyFormat::new("{{}x{}");
    assert_eq!(c.prefix, "{");
    assert_eq!(c.suffix, "x{}");
    let _: Result<CurrencyFormat, CurrencyFormatParseError> = CurrencyFormat::from_str("");
}

#[test]
fn email_address_from_str() {
    assert_eq!(
        "test@example.com".parse::<EmailAddress>().unwrap().to_string(),
        "test@example.com"
            .parse::<email_address::EmailAddress>()
            .unwrap()
            .to_string(),
    );
}

#[test]
fn email_address_to_str() {
    let source = "test@example.com";

    let a = source.parse::<EmailAddress>().unwrap();
    assert_eq!(a.to_string(), source);
}

#[test]
fn email_address_invalid() {
    assert!("not an address".parse::<EmailAddress>().is_err());
}

#[test]
fn role_from_str() {
    assert_eq!("child".parse::<Role>().unwrap(), Role::Child);
    assert_eq!("parent".parse::<Role>().unwrap(), Role::Parent);
    assert_eq!(
        "unknown".parse::<Role>(),
        Err(RoleParseError("unknown".into())),
    );
}

#[test]
fn role_to_str() {
    for source in ["child", "parent"].iter() {
        let a = source.parse::<Role>().unwrap();
        assert_eq!(&a.to_string(), source);
    }
}

#[test]
fn transaction_type_from_str() {
    assert_eq!("allowance".parse::<TransactionType>().unwrap(), TransactionType::Allowance);
    assert_eq!("gift".parse::<TransactionType>().unwrap(), TransactionType::Gift);
    assert_eq!("request".parse::<TransactionType>().unwrap(), TransactionType::Request);
    assert_eq!(
        "unknown".parse::<TransactionType>(),
        Err(TransactionTypeParseError("unknown".into())),
    );
}

#[test]
fn transaction_type_to_str() {
    for source in ["allowance", "gift", "request"].iter() {
        let a = source.parse::<TransactionType>().unwrap();
        assert_eq!(&a.to_string(), source);
    }
}

#[test]
fn url_from_str() {
    assert_eq!(
        "https://example.com/some/path".parse::<URL>().unwrap().to_string(),
        url::Url::parse("https://example.com/some/path")
            .unwrap()
            .to_string(),
    );
}

#[test]
fn url_to_str() {
    let source = "https://example.com/some/path";

    let a = source.parse::<URL>().unwrap();
    assert_eq!(a.to_string(), source);
}

#[test]
fn url_normalised() {
    let a = "HTTPS://Example.com".parse::<URL>().unwrap();
    assert_eq!(a.to_string(), "https://example.com/");
    assert!("not a url".parse::<URL>().is_err());
}

#[test]
fn uid_from_str() {
    let source = "0123456789abcdef0123456789abcdef";

    assert_eq!(
        source.parse::<UID>().unwrap(),
        UID {
            value: uuid::Uuid::parse_str(source).unwrap().as_u128()
        },
    );
}

#[test]
fn uid_to_str() {
    let source = "0123456789abcdef0123456789abcdef";

    let a = source.parse::<UID>().unwrap();
    assert_eq!(a.to_string(), source);
}

#[test]
fn uid_forms() {
    let a = UID { value: 0x0123456789abcdef0123456789abcdef };
    assert_eq!(a.to_string(), "0123456789abcdef0123456789abcdef");
    let b = "01234567-89ab-cdef-0123-456789abcdef".parse::<UID>().unwrap();
    assert_eq!(a, b);
    assert_eq!(UID { value: 1 }.to_string(), "00000000000000000000000000000001");
    assert!("xyz".parse::<UID>().is_err());
    assert_ne!(UID::new(), UID::new());
}

#[test]
fn schedule_from_str() {
    assert_eq!("Mon".parse::<Schedule>().unwrap(), Schedule(Weekday::Mon));
    assert_eq!(
        "Monday".parse::<Schedule>().unwrap(),
        Schedule(Weekday::Mon)
    );
    assert_eq!("Tue".parse::<Schedule>().unwrap(), Schedule(Weekday::Tue));
    assert_eq!(
        "Tuesday".parse::<Schedule>().unwrap(),
        Schedule(Weekday::Tue)
    );
    assert_eq!("Wed".parse::<Schedule>().unwrap(), Schedule(Weekday::Wed));
    assert_eq!(
        "Wednesday".parse::<Schedule>().unwrap(),
        Schedule(Weekday::Wed)
    );
    assert_eq!("Thu".parse::<Schedule>().unwrap(), Schedule(Weekday::Thu));
    assert_eq!(
        "Thursday".parse::<Schedule>().unwrap(),
        Schedule(Weekday::Thu)
    );
    assert_eq!("Fri".parse::<Schedule>().unwrap(), Schedule(Weekday::Fri));
    assert_eq!(
        "Friday".parse::<Schedule>().unwrap(),
        Schedule(Weekday::Fri)
    );
    assert_eq!("Sat".parse::<Schedule>().unwrap(), Schedule(Weekday::Sat));
    assert_eq!(
        "Saturday".parse::<Schedule>().unwrap(),
        Schedule(Weekday::Sat)
    );
    assert_eq!("Sun".parse::<Schedule>().unwrap(), Schedule(Weekday::Sun));
    assert_eq!(
        "Sunday".parse::<Schedule>().unwrap(),
        Schedule(Weekday::Sun)
    );
    assert_eq!(
        "unknown".parse::<Schedule>(),
        Err(ScheduleParseError("unknown".into())),
    );
}

#[test]
fn schedule_to_str() {
    for source in ["Mon", "Tue", "Wed", "Thu", "Fri", "Sat", "Sun"].iter() {
        let a = source.parse::<Schedule>().unwrap();
        assert_eq!(&a.to_string(), source);
    }
}

#[test]
fn timestamp_from_str() {
    assert_eq!(
        "1970-01-01T00:00:00+00:00".parse::<Timestamp>().unwrap(),
        "1970-01-01T00:00:00Z".parse::<Timestamp>().unwrap(),
    );
}

#[test]
fn timestamp_to_str() {
    let source = "1970-01-01T00:00:00+00:00";

    let a = source.parse::<Timestamp>().unwrap();
    assert_eq!(a.to_string(), source);
}

#[test]
fn timestamp_parts() {
    let a = "1970-01-02T01:00:00+02:00".parse::<Timestamp>().unwrap();
    assert_eq!(a.seconds, 82_800);
    assert_eq!(a.offset, 7_200);
    assert_eq!(a.date(), (1970, 1, 2));
    assert_eq!(a.weekday(), 4);
    assert_eq!(a.millis(), 82_800_000);
    assert_eq!(Timestamp::from_parts(0, 0, 86_400), None);
    assert!(Timestamp::from_parts(0, 5, -3_600).is_some());
    assert!("yesterday".parse::<Timestamp>().is_err());
    assert!(Timestamp::now().seconds > 1_600_000_000);
}

#[test]
fn schedule_names_in_any_case() {
    assert_eq!("MONDAY".parse::<Schedule>().unwrap(), Schedule(Weekday::Mon));
    assert_eq!("tUe".parse::<Schedule>().unwrap(), Schedule(Weekday::Tue));
    assert!("Mond".parse::<Schedule>().is_err());
    assert!("Mo".parse::<Schedule>().is_err());
    assert!("Sundays".parse::<Schedule>().is_err());
}
