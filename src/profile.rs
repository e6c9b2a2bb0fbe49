use vstd::prelude::*;

use crate::date::{
    age_in_years, age_outcome, birth_date_format, is_iso_date, iso_day_number, parse_birth_date,
    parsed_day_number, today_day_number, ProfileError,
};
use crate::phones::{split_on, split_phones, tokens_view, PHONE_SEPARATOR};

verus! {

/// A profile: a name, an age in whole years and a list of phone numbers.
#[derive(Debug, PartialEq, Eq)]
pub struct Person {
    pub name: String,
    pub age: u8,
    pub phones: Vec<String>,
}

/// The body of a profile request: a birth date written `YYYY-MM-DD`.
#[derive(Debug, PartialEq, Eq)]
pub struct PersonBirthDate {
    pub birth_date: String,
}

/// The query of a profile request: phone numbers separated by commas.
#[derive(Debug, PartialEq, Eq)]
pub struct PersonPhone {
    pub phone_numbers: String,
}

/// What a profile holds, as mathematical values.
pub struct PersonView {
    pub name: Seq<char>,
    pub age: int,
    pub phones: Seq<Seq<char>>,
}

impl View for Person {
    type V = PersonView;

    open spec fn view(&self) -> PersonView {
        PersonView { name: self.name@, age: self.age as int, phones: tokens_view(self.phones@) }
    }
}

/// The text of the greeting.
pub open spec fn greeting() -> Seq<char> {
    "hello from api 1"@
}

/// The outcome of a profile request on day `today`, for a birth date read as
/// `birth` (`None` where it could not be read).
pub open spec fn profile_outcome(
    today: int,
    name: Seq<char>,
    birth: Option<int>,
    phone_numbers: Seq<char>,
) -> Result<PersonView, ProfileError> {
    match birth {
        None => Err(ProfileError::InvalidBirthDate),
        Some(b) => match age_outcome(today, b) {
            Err(e) => Err(e),
            Ok(age) => Ok(
                PersonView { name, age, phones: split_on(phone_numbers, PHONE_SEPARATOR) },
            ),
        },
    }
}

/// A profile outcome as mathematical values.
pub open spec fn outcome_view(r: Result<Person, ProfileError>) -> Result<PersonView, ProfileError> {
    match r {
        Ok(p) => Ok(p@),
        Err(e) => Err(e),
    }
}

/// Returns the greeting, always the same text.
pub fn hello1() -> (r: String)
    ensures
        r@ == greeting(),
{
    "hello from api 1".to_string()
}

/// Builds the profile of `name` as of day `today` (0001-01-01 is day 1): the
/// age comes from the birth date in `body`, the phones from the list in
/// `query`.
pub fn hello2_on(today: i32, name: &str, body: &PersonBirthDate, query: &PersonPhone) -> (r:
    Result<Person, ProfileError>)
    ensures
        outcome_view(r) == profile_outcome(
            today as int,
            name@,
            parsed_day_number(body.birth_date@, birth_date_format()),
            query.phone_numbers@,
        ),
        is_iso_date(body.birth_date@) ==> outcome_view(r) == profile_outcome(
            today as int,
            name@,
            Some(iso_day_number(body.birth_date@)),
            query.phone_numbers@,
        ),
        is_iso_date(body.birth_date@) && iso_day_number(body.birth_date@) <= today && (today
            - iso_day_number(body.birth_date@)) / 365 <= 255 ==> r is Ok && r->Ok_0.age as int == (
        today - iso_day_number(body.birth_date@)) / 365 && r->Ok_0.age >= 0,
{
    let birth = match parse_birth_date(body.birth_date.as_str()) {
        Ok(b) => b,
        Err(e) => {
            return Err(e);
        },
    };
    let age = match age_in_years(today, birth) {
        Ok(a) => a,
        Err(e) => {
            return Err(e);
        },
    };
    let phones = split_phones(query.phone_numbers.as_str());
    Ok(Person { name: name.to_string(), age, phones })
}

/// Builds the profile of `name` as of the current UTC date.
pub fn hello2(name: &str, body: &PersonBirthDate, query: &PersonPhone) -> (r: Result<
    Person,
    ProfileError,
>)
    ensures
        exists|today: i32|
            outcome_view(r) == #[trigger] profile_outcome(
                today as int,
                name@,
                parsed_day_number(body.birth_date@, birth_date_format()),
                query.phone_numbers@,
            ),
        parsed_day_number(body.birth_date@, birth_date_format()) is None ==> r
            == Err::<Person, ProfileError>(ProfileError::InvalidBirthDate),
        r matches Ok(p) ==> p.name@ == name@ && tokens_view(p.phones@) == split_on(
            query.phone_numbers@,
            PHONE_SEPARATOR,
        ),
{
    let today = today_day_number();
    let r = hello2_on(today, name, body, query);
    assert(outcome_view(r) == profile_outcome(
        today as int,
        name@,
        parsed_day_number(body.birth_date@, birth_date_format()),
        query.phone_numbers@,
    ));
    r
}

} // verus!
