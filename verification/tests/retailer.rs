use auth_client::{RetailerCode, RetailerCodeError};

#[test]
fn test_existing_count_matches_pr0001() {
    // PR-0001: 29 Croatia (ready) + 2 Slovenia (ready) = 31 existing
    assert_eq!(
        RetailerCode::existing().len(),
        31,
        "Count mismatch! Update PR-0001 or retailer_code.rs to match"
    );
}

#[test]
fn test_upcoming_count_matches_pr0001() {
    // PR-0001: istylehr, storecomhr = 2 upcoming
    assert_eq!(
        RetailerCode::upcoming().len(),
        2,
        "Count mismatch! Update PR-0001 or retailer_code.rs to match"
    );
}

#[test]
fn test_test_retailers_count_matches_pr0001() {
    // PR-0001: boxclub, cheapymart, shadyshop = 3 test
    assert_eq!(
        RetailerCode::test_retailers().len(),
        3,
        "Count mismatch! Update PR-0001 or retailer_code.rs to match"
    );
}

#[test]
fn test_total_retailers_matches_pr0001() {
    // PR-0001: Total 33 retailers (31 existing + 2 upcoming) + 3 test = 36
    let total = RetailerCode::existing().len() + RetailerCode::upcoming().len()
        + RetailerCode::test_retailers().len();
    assert_eq!(total, 36, "Total retailer count mismatch with PR-0001");
}

#[test]
fn test_upcoming_contains_correct_retailers() {
    let upcoming = RetailerCode::upcoming();
    assert!(upcoming.contains(&RetailerCode::Istylehr));
    assert!(upcoming.contains(&RetailerCode::Storecomhr));
}

#[test]
fn test_test_retailers_contains_correct_retailers() {
    let test = RetailerCode::test_retailers();
    assert!(test.contains(&RetailerCode::BoxClub));
    assert!(test.contains(&RetailerCode::CheapyMart));
    assert!(test.contains(&RetailerCode::ShadyShop));
}

#[test]
fn test_is_test() {
    assert!(RetailerCode::BoxClub.is_test());
    assert!(RetailerCode::CheapyMart.is_test());
    assert!(RetailerCode::ShadyShop.is_test());
    assert!(!RetailerCode::Admhr.is_test());
}

#[test]
fn test_is_upcoming() {
    assert!(RetailerCode::Istylehr.is_upcoming());
    assert!(RetailerCode::Storecomhr.is_upcoming());
    assert!(!RetailerCode::Admhr.is_upcoming());
    assert!(!RetailerCode::BoxClub.is_upcoming());
}

#[test]
fn test_display() {
    assert_eq!(RetailerCode::Admhr.as_str(), "admhr");
    assert_eq!(RetailerCode::Bigbangsi.as_str(), "bigbangsi");
    assert_eq!(RetailerCode::BoxClub.as_str(), "boxclub");
}

#[test]
fn test_from_str_lowercase() {
    assert_eq!("admhr".parse::<RetailerCode>().unwrap(), RetailerCode::Admhr);
    assert_eq!("bigbangsi".parse::<RetailerCode>().unwrap(), RetailerCode::Bigbangsi);
}

#[test]
fn test_from_str_uppercase() {
    assert_eq!("ADMHR".parse::<RetailerCode>().unwrap(), RetailerCode::Admhr);
    assert_eq!("BIGBANGSI".parse::<RetailerCode>().unwrap(), RetailerCode::Bigbangsi);
}

#[test]
fn test_from_str_mixed_case() {
    assert_eq!("AdmHr".parse::<RetailerCode>().unwrap(), RetailerCode::Admhr);
}

#[test]
fn test_from_str_invalid() {
    assert!("invalid".parse::<RetailerCode>().is_err());
    assert!("foo".parse::<RetailerCode>().is_err());
}

#[test]
fn test_roundtrip_parse_display() {
    let codes = [
        RetailerCode::Admhr,
        RetailerCode::Bigbangsi,
        RetailerCode::BoxClub,
        RetailerCode::Istylehr,
    ];

    for code in &codes {
        let s = code.as_str();
        let parsed: RetailerCode = s.parse().unwrap();
        assert_eq!(parsed, *code);
    }
}

#[test]
fn test_parse_error_carries_input() {
    match "foo".parse::<RetailerCode>() {
        Err(RetailerCodeError::Invalid(s)) => assert_eq!(s, "foo"),
        Ok(_) => panic!("expected an error"),
    }
}

#[test]
fn test_every_code_roundtrips() {
    let mut all = RetailerCode::existing();
    all.extend(RetailerCode::upcoming());
    all.extend(RetailerCode::test_retailers());
    assert_eq!(all.len(), 36);
    for code in &all {
        let parsed: RetailerCode = code.as_str().parse().unwrap();
        assert_eq!(parsed, *code);
    }
}
