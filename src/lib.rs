//! A small profile service: a fixed greeting, and a profile built from a
//! name, a birth date and a comma-separated list of phone numbers.
mod date;
mod phones;
mod profile;

pub use phones::{join_on, lemma_split_join, split_on, split_phones, tokens_view, PHONE_SEPARATOR};
pub use date::{
    age_in_years, age_outcome, birth_date_format, day_number, days_before_month, days_in_month,
    digit_value, is_digit, is_iso_date, is_leap_year, iso_day, iso_day_number, iso_month,
    iso_year, parse_birth_date, parsed_day_number, two_digits, ProfileError, DAYS_PER_YEAR,
    MAX_AGE,
};
pub use profile::{
    greeting, hello1, hello2, hello2_on, outcome_view, profile_outcome, Person, PersonBirthDate,
    PersonPhone, PersonView,
};
