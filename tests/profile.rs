use hello_api::{
    age_in_years, hello1, hello2, hello2_on, parse_birth_date, split_phones, Person,
    PersonBirthDate, PersonPhone, ProfileError,
};

fn body(birth_date: &str) -> PersonBirthDate {
    PersonBirthDate { birth_date: birth_date.to_string() }
}

fn query(phone_numbers: &str) -> PersonPhone {
    PersonPhone { phone_numbers: phone_numbers.to_string() }
}

fn day(s: &str) -> i32 {
    parse_birth_date(s).unwrap()
}

#[test]
fn greeting_is_fixed() {
    assert_eq!(hello1(), "hello from api 1");
    assert_eq!(hello1(), hello1());
}

#[test]
fn day_numbers_of_known_dates() {
    assert_eq!(parse_birth_date("0001-01-01"), Ok(1));
    assert_eq!(parse_birth_date("1970-01-01"), Ok(719163));
    assert_eq!(parse_birth_date("2024-01-01"), Ok(738886));
    assert_eq!(parse_birth_date("2024-02-29"), Ok(738945));
}

#[test]
fn age_on_fixed_day() {
    let r = hello2_on(day("2024-01-01"), "alice", &body("1990-01-01"), &query("111-2222,333-4444"));
    let p = r.unwrap();
    assert_eq!(p.name, "alice");
    assert_eq!(p.age, 34);
    assert_eq!(p.phones, vec!["111-2222".to_string(), "333-4444".to_string()]);
}

#[test]
fn age_is_day_count_over_365() {
    assert_eq!(age_in_years(1000, 1000), Ok(0));
    assert_eq!(age_in_years(1000 + 364, 1000), Ok(0));
    assert_eq!(age_in_years(1000 + 365, 1000), Ok(1));
    assert_eq!(age_in_years(1000 + 2 * 365 - 1, 1000), Ok(1));
    assert_eq!(age_in_years(1000 + 255 * 365 + 364, 1000), Ok(255));
}

#[test]
fn leap_days_are_not_counted() {
    // 2000-01-01 to 2004-01-01 holds 1461 days: four years, exactly.
    assert_eq!(age_in_years(day("2004-01-01"), day("2000-01-01")), Ok(4));
    // 2000-01-01 to 2003-12-31 holds 1460 days: still four ages of 365 days.
    assert_eq!(age_in_years(day("2003-12-31"), day("2000-01-01")), Ok(4));
    // 2001-01-01 to 2004-12-31 holds 1460 days, where a calendar would say three.
    assert_eq!(age_in_years(day("2004-12-31"), day("2001-01-01")), Ok(4));
}

#[test]
fn future_birth_date_is_refused() {
    assert_eq!(age_in_years(1000, 1001), Err(ProfileError::BirthDateInFuture));
    let r = hello2_on(day("2024-01-01"), "bob", &body("2024-01-02"), &query("1"));
    assert_eq!(r, Err(ProfileError::BirthDateInFuture));
}

#[test]
fn age_beyond_range_is_refused() {
    assert_eq!(age_in_years(1000 + 256 * 365, 1000), Err(ProfileError::AgeOutOfRange));
    let r = hello2_on(day("2024-01-01"), "old", &body("0001-01-01"), &query("1"));
    assert_eq!(r, Err(ProfileError::AgeOutOfRange));
}

#[test]
fn trailing_comma_keeps_an_empty_phone() {
    let r = hello2_on(day("2024-01-01"), "carol", &body("1990-01-01"), &query("111-2222,"));
    assert_eq!(r.unwrap().phones, vec!["111-2222".to_string(), String::new()]);
}

#[test]
fn malformed_birth_dates_are_client_errors() {
    let today = day("2024-01-01");
    for bad in ["not-a-date", "1990-13-01", "1990-02-30", "", "1990/01/01", "1990-01-01x"] {
        assert_eq!(parse_birth_date(bad), Err(ProfileError::InvalidBirthDate));
        let r = hello2_on(today, "dave", &body(bad), &query("1"));
        assert_eq!(r, Err(ProfileError::InvalidBirthDate));
    }
    assert_eq!(hello2("dave", &body("not-a-date"), &query("1")), Err(ProfileError::InvalidBirthDate));
}

#[test]
fn split_keeps_order_and_empty_entries() {
    assert_eq!(split_phones(""), vec![String::new()]);
    assert_eq!(split_phones(","), vec![String::new(), String::new()]);
    assert_eq!(split_phones(" 1 ,2,,3"), vec![" 1 ".to_string(), "2".to_string(), String::new(), "3".to_string()]);
    assert_eq!(split_phones("äö,ü"), vec!["äö".to_string(), "ü".to_string()]);
}

#[test]
fn split_after_join_gives_tokens_back() {
    let tokens = vec!["111-2222".to_string(), String::new(), "333-4444".to_string()];
    assert_eq!(split_phones(&tokens.join(",")), tokens);
    let one = vec!["555".to_string()];
    assert_eq!(split_phones(&one.join(",")), one);
}

#[test]
fn profile_as_of_today() {
    let p: Person = hello2("erin", &body("1990-01-01"), &query("111-2222")).unwrap();
    assert_eq!(p.name, "erin");
    assert!(p.age >= 34);
    assert_eq!(p.phones, vec!["111-2222".to_string()]);
}
