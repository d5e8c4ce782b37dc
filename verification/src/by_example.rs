//! Conversions, options and error handling.

use vstd::prelude::*;

use crate::parse::{decimal_i32, parse_i32};

verus! {

/// A number made from an `i32`.
#[derive(Debug, PartialEq, Eq, Structural, Clone, Copy)]
pub struct Num(pub i32);

impl From<i32> for Num {
    fn from(item: i32) -> (r: Self) {
        Num(item)
    }
}

impl vstd::std_specs::convert::FromSpecImpl<i32> for Num {
    open spec fn obeys_from_spec() -> bool {
        true
    }

    open spec fn from_spec(item: i32) -> Num {
        Num(item)
    }
}

/// An even number.
#[derive(Debug, PartialEq, Eq, Structural, Clone, Copy)]
pub struct EvenNumber(pub i32);

impl EvenNumber {
    /// The number, if it is even; `Err(())` for an odd one.
    pub fn try_from(value: i32) -> (r: Result<EvenNumber, ()>)
        ensures
            value % 2 == 0 ==> r == Ok::<EvenNumber, ()>(EvenNumber(value)),
            value % 2 != 0 ==> r == Err::<EvenNumber, ()>(()),
    {
        if value % 2 == 0 {
            Ok(EvenNumber(value))
        } else {
            Err(())
        }
    }
}

/// The error of asking for the first element of an empty list.
#[derive(Debug, Clone, Copy, PartialEq, Eq, Structural)]
pub struct NoFirstElement;

impl NoFirstElement {
    /// The message of the error.
    pub fn message(&self) -> (r: &'static str)
        ensures
            r@ == "no first element"@,
    {
        "no first element"
    }
}

/// Why the first item of a list could not be read as a number.
#[derive(Debug, Clone, Copy, PartialEq, Eq, Structural)]
pub enum ParseFirstItemError {
    NoFirstElement,
    ParseError,
}

impl ParseFirstItemError {
    /// The message of the error, the same for both kinds.
    pub fn message(&self) -> (r: &'static str)
        ensures
            r@ == "parsing failed"@,
    {
        "parsing failed"
    }
}

/// The first item of the list, read as an `i32`.
pub fn parse_first_item(vec: Vec<&str>) -> (r: Result<i32, ParseFirstItemError>)
    ensures
        vec.len() == 0 ==> r == Err::<i32, ParseFirstItemError>(
            ParseFirstItemError::NoFirstElement,
        ),
        vec.len() > 0 ==> r == match decimal_i32(vec@[0]@) {
            Some(v) => Ok::<i32, ParseFirstItemError>(v),
            None => Err(ParseFirstItemError::ParseError),
        },
{
    if vec.len() == 0 {
        return Err(ParseFirstItemError::NoFirstElement);
    }
    match parse_i32(vec[0]) {
        Some(v) => Ok(v),
        None => Err(ParseFirstItemError::ParseError),
    }
}

/// A person, who may have a job.
pub struct Person {
    pub job: Option<Job>,
}

/// A job, which may come with a phone number.
pub struct Job {
    pub phone_number: Option<String>,
}

/// The phone number of the person's job, when there is a person, a job and a number.
pub fn get_phone_number(person: Option<Person>) -> (r: Option<String>)
    ensures
        match person {
            Some(p) => match p.job {
                Some(job) => match job.phone_number {
                    Some(n) => r matches Some(s) && s@ == n@,
                    None => r is None,
                },
                None => r is None,
            },
            None => r is None,
        },
{
    match person {
        Some(p) => match p.job {
            Some(job) => job.phone_number,
            None => None,
        },
        None => None,
    }
}

/// The phone number with the country code `+7` in front.
pub fn decorated_phone_number(phone_number: Option<String>) -> (r: Option<String>)
    ensures
        match phone_number {
            Some(n) => r matches Some(s) && s@ == "+7"@ + n@,
            None => r is None,
        },
{
    match phone_number {
        Some(num) => {
            let mut text = "+7".to_owned();
            text.append(num.as_str());
            Some(text)
        },
        None => None,
    }
}

} // verus!
