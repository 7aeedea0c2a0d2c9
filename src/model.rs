use std::collections::HashSet;
use vstd::prelude::*;

verus! {

/// Paper size a shop can print on.
#[derive(Debug, Clone, Copy, PartialEq, Eq, Hash, Structural)]
pub enum PageType {
    A3,
    A4,
    A5,
}

/// Colour mode a shop can print in.
#[derive(Debug, Clone, Copy, PartialEq, Eq, Hash, Structural)]
pub enum PrintType {
    Colored,
    BlackAndWhite,
}

impl Default for PageType {
    fn default() -> (r: PageType)
        ensures
            r == PageType::A3,
    {
        PageType::A3
    }
}

impl Default for PrintType {
    fn default() -> (r: PrintType)
        ensures
            r == PrintType::BlackAndWhite,
    {
        PrintType::BlackAndWhite
    }
}

/// Whether `s` holds exactly the characters of `lit`.
pub fn text_is(s: &str, lit: &str) -> (r: bool)
    ensures
        r == (s@ == lit@),
{
    let a = s.to_owned();
    let b = lit.to_owned();
    a == b
}

/// The page type written as `s` in a job form, if any.
pub open spec fn page_type_of(s: Seq<char>) -> Option<PageType> {
    if s == "A3"@ {
        Some(PageType::A3)
    } else if s == "A4"@ {
        Some(PageType::A4)
    } else if s == "A5"@ {
        Some(PageType::A5)
    } else {
        None
    }
}

/// The print type written as `s` in a job form, if any.
pub open spec fn print_type_of(s: Seq<char>) -> Option<PrintType> {
    if s == "Color Print"@ {
        Some(PrintType::Colored)
    } else if s == "Black and White Print"@ {
        Some(PrintType::BlackAndWhite)
    } else {
        None
    }
}

impl PageType {
    /// Reads a page type from its form text (`A3`, `A4` or `A5`).
    pub fn try_from(value: String) -> (r: Result<PageType, ()>)
        ensures
            r == (match page_type_of(value@) {
                Some(p) => Ok(p),
                None => Err(()),
            }),
    {
        if text_is(value.as_str(), "A3") {
            Ok(PageType::A3)
        } else if text_is(value.as_str(), "A4") {
            Ok(PageType::A4)
        } else if text_is(value.as_str(), "A5") {
            Ok(PageType::A5)
        } else {
            Err(())
        }
    }
}

impl PrintType {
    /// Reads a print type from its form text (`Color Print` or
    /// `Black and White Print`).
    pub fn try_from(value: String) -> (r: Result<PrintType, ()>)
        ensures
            r == (match print_type_of(value@) {
                Some(p) => Ok(p),
                None => Err(()),
            }),
    {
        if text_is(value.as_str(), "Color Print") {
            Ok(PrintType::Colored)
        } else if text_is(value.as_str(), "Black and White Print") {
            Ok(PrintType::BlackAndWhite)
        } else {
            Err(())
        }
    }
}

/// What a shop declares it can print when it registers.
#[derive(Debug, Default)]
pub struct CreateShopArgs {
    pub page_capabilities: HashSet<PageType>,
    pub print_capabilities: HashSet<PrintType>,
}

/// A print job as its sender submitted it.
#[derive(Debug, Default, Clone)]
pub struct NewPrintArgs {
    pub name: String,
    pub system_id: String,
    pub phone_number: String,
    pub email_id: String,
    pub file: Vec<u8>,
    pub page_type: PageType,
    pub print_type: PrintType,
}

/// One step of a job's negotiation, as relayed to the job's sender.
#[derive(Debug, Clone, Copy, PartialEq, Eq, Structural)]
pub enum PrintResponse {
    Cost(usize),
    Printed,
}

/// Why a broker operation did not go through.
#[derive(Debug, Clone, Copy, PartialEq, Eq, Structural)]
pub enum BrokerError {
    /// No shop was ever registered under the id.
    ShopNotFound,
    /// The shop exists but no terminal is connected to it.
    ShopNotConnected,
    /// No pending result stream is held under the job id.
    JobNotFound,
    /// A job form field is missing or does not name a known value.
    InvalidJobField,
    /// The freshly drawn identifier is already in use.
    IdCollision,
}

/// The job built from its form fields, or why it cannot be.
pub open spec fn job_of_fields(
    name: Option<String>,
    system_id: Option<String>,
    phone_number: Option<String>,
    email_id: Option<String>,
    file: Option<Vec<u8>>,
    page_type: Option<String>,
    print_type: Option<String>,
) -> Result<NewPrintArgs, BrokerError> {
    if name.is_none() || system_id.is_none() || phone_number.is_none() || email_id.is_none()
        || file.is_none() || page_type.is_none() || print_type.is_none() {
        Err(BrokerError::InvalidJobField)
    } else if page_type_of(page_type.unwrap()@).is_none() || print_type_of(
        print_type.unwrap()@,
    ).is_none() {
        Err(BrokerError::InvalidJobField)
    } else {
        Ok(
            NewPrintArgs {
                name: name.unwrap(),
                system_id: system_id.unwrap(),
                phone_number: phone_number.unwrap(),
                email_id: email_id.unwrap(),
                file: file.unwrap(),
                page_type: page_type_of(page_type.unwrap()@).unwrap(),
                print_type: print_type_of(print_type.unwrap()@).unwrap(),
            },
        )
    }
}

impl NewPrintArgs {
    /// Builds a job from the fields of a submission form. Every field must be
    /// present and the page and print types must name known values;
    /// otherwise the form is rejected with `InvalidJobField`.
    pub fn from_fields(
        name: Option<String>,
        system_id: Option<String>,
        phone_number: Option<String>,
        email_id: Option<String>,
        file: Option<Vec<u8>>,
        page_type: Option<String>,
        print_type: Option<String>,
    ) -> (r: Result<NewPrintArgs, BrokerError>)
        ensures
            r == job_of_fields(
                name,
                system_id,
                phone_number,
                email_id,
                file,
                page_type,
                print_type,
            ),
    {
        match (name, system_id, phone_number, email_id, file, page_type, print_type) {
            (Some(name), Some(system_id), Some(phone_number), Some(email_id), Some(file), Some(page), Some(print)) => {
                let page_type = match PageType::try_from(page) {
                    Ok(p) => p,
                    Err(_) => {
                        return Err(BrokerError::InvalidJobField);
                    },
                };
                let print_type = match PrintType::try_from(print) {
                    Ok(p) => p,
                    Err(_) => {
                        return Err(BrokerError::InvalidJobField);
                    },
                };
                Ok(
                    NewPrintArgs {
                        name,
                        system_id,
                        phone_number,
                        email_id,
                        file,
                        page_type,
                        print_type,
                    },
                )
            },
            _ => Err(BrokerError::InvalidJobField),
        }
    }
}

} // verus!
